//! Conversions from TMDB responses to the unified models. The TMDB response
//! types hold, as plain values, the fields that the conversions read.
use vstd::prelude::*;

use crate::anilist_convert::clone_opt;
use crate::anilist_response::opt_view;
use crate::genre::{genre_for_lowered, known_genre_name, Genre};
use crate::image_url::{
    backdrop_size_text, image_url, poster_size_text, profile_size_text, still_size_text, BackdropSize,
    ImageUrl, PosterSize, ProfileSize, StillSize,
};
use crate::models::{
    MovieCore, MovieDetailsCore, PersonCore, PersonDetailsCore, SearchResultCore, TvShowCore,
    TvShowDetailsCore,
};
use crate::text::{eq_text, owned, push_signed_decimal, signed_decimal, lowercase};

verus! {

/// An object of a TMDB list that has an optional name (a genre, company,
/// country, network or creator).
#[derive(Debug, Clone)]
pub struct TmdbNamed {
    /// The name.
    pub name: Option<String>,
}

/// A spoken language of a TMDB title.
#[derive(Debug, Clone)]
pub struct TmdbLanguage {
    /// Its English name.
    pub english_name: Option<String>,
}

/// A movie in a TMDB list response (search, trending, popular, top rated,
/// discover, similar).
#[derive(Debug, Clone)]
pub struct TmdbMovieItem {
    /// TMDB ID.
    pub id: i64,
    /// Title.
    pub title: Option<String>,
    /// Original title.
    pub original_title: Option<String>,
    /// Overview.
    pub overview: Option<String>,
    /// Release date.
    pub release_date: Option<String>,
    /// Poster path.
    pub poster_path: Option<String>,
    /// Backdrop path.
    pub backdrop_path: Option<String>,
    /// Genre IDs.
    pub genre_ids: Vec<i64>,
    /// Vote count.
    pub vote_count: i64,
    /// Original language.
    pub original_language: Option<String>,
    /// Adult flag.
    pub adult: bool,
}

/// A TV show in a TMDB list response. Listings whose items have no adult flag
/// give `false`.
#[derive(Debug, Clone)]
pub struct TmdbTvItem {
    /// TMDB ID.
    pub id: i64,
    /// Name.
    pub name: Option<String>,
    /// Original name.
    pub original_name: Option<String>,
    /// Overview.
    pub overview: Option<String>,
    /// First air date.
    pub first_air_date: Option<String>,
    /// Poster path.
    pub poster_path: Option<String>,
    /// Backdrop path.
    pub backdrop_path: Option<String>,
    /// Genre IDs.
    pub genre_ids: Vec<i64>,
    /// Vote count.
    pub vote_count: i64,
    /// Original language.
    pub original_language: Option<String>,
    /// Origin countries.
    pub origin_country: Vec<String>,
    /// Adult flag.
    pub adult: bool,
}

/// A TMDB movie details response.
#[derive(Debug, Clone)]
pub struct TmdbMovieDetails {
    /// TMDB ID.
    pub id: i64,
    /// Title.
    pub title: Option<String>,
    /// Original title.
    pub original_title: Option<String>,
    /// Overview.
    pub overview: Option<String>,
    /// Release date.
    pub release_date: Option<String>,
    /// Poster path.
    pub poster_path: Option<String>,
    /// Backdrop path.
    pub backdrop_path: Option<String>,
    /// Genres.
    pub genres: Vec<TmdbNamed>,
    /// Vote count.
    pub vote_count: i64,
    /// Original language.
    pub original_language: Option<String>,
    /// Adult flag.
    pub adult: bool,
    /// Tagline.
    pub tagline: Option<String>,
    /// Runtime in minutes (0 when unknown).
    pub runtime: i64,
    /// Budget (0 when unknown).
    pub budget: i64,
    /// Revenue (0 when unknown).
    pub revenue: i64,
    /// Status.
    pub status: Option<String>,
    /// Homepage.
    pub homepage: Option<String>,
    /// IMDB ID.
    pub imdb_id: Option<String>,
    /// Production companies.
    pub production_companies: Vec<TmdbNamed>,
    /// Production countries.
    pub production_countries: Vec<TmdbNamed>,
    /// Spoken languages.
    pub spoken_languages: Vec<TmdbLanguage>,
    /// Whether there is a video.
    pub video: bool,
    /// The name of the collection, when the collection object has a string name.
    pub collection_name: Option<String>,
}

/// A TMDB TV series details response.
#[derive(Debug, Clone)]
pub struct TmdbTvDetails {
    /// TMDB ID.
    pub id: i64,
    /// Name.
    pub name: Option<String>,
    /// Original name.
    pub original_name: Option<String>,
    /// Overview.
    pub overview: Option<String>,
    /// First air date.
    pub first_air_date: Option<String>,
    /// Poster path.
    pub poster_path: Option<String>,
    /// Backdrop path.
    pub backdrop_path: Option<String>,
    /// Genres.
    pub genres: Vec<TmdbNamed>,
    /// Vote count.
    pub vote_count: i64,
    /// Original language.
    pub original_language: Option<String>,
    /// Origin countries.
    pub origin_country: Vec<String>,
    /// Adult flag.
    pub adult: bool,
    /// Tagline.
    pub tagline: Option<String>,
    /// Number of seasons.
    pub number_of_seasons: i64,
    /// Number of episodes.
    pub number_of_episodes: i64,
    /// Whether in production.
    pub in_production: bool,
    /// Status.
    pub status: Option<String>,
    /// Homepage.
    pub homepage: Option<String>,
    /// Networks.
    pub networks: Vec<TmdbNamed>,
    /// Production companies.
    pub production_companies: Vec<TmdbNamed>,
    /// Last air date.
    pub last_air_date: Option<String>,
    /// Type of show.
    pub type_: Option<String>,
    /// Creators.
    pub created_by: Vec<TmdbNamed>,
    /// Episode run times.
    pub episode_run_time: Vec<i64>,
    /// Spoken languages.
    pub spoken_languages: Vec<TmdbLanguage>,
    /// Production countries.
    pub production_countries: Vec<TmdbNamed>,
}

/// A person in a TMDB search response.
#[derive(Debug, Clone)]
pub struct TmdbPersonItem {
    /// TMDB ID.
    pub id: i64,
    /// Name.
    pub name: Option<String>,
    /// Known-for department.
    pub known_for_department: Option<String>,
    /// Profile path.
    pub profile_path: Option<String>,
    /// Gender code.
    pub gender: i64,
    /// Adult flag.
    pub adult: bool,
}

/// A TMDB person details response.
#[derive(Debug, Clone)]
pub struct TmdbPersonDetails {
    /// The base person.
    pub person: TmdbPersonItem,
    /// Biography.
    pub biography: Option<String>,
    /// Birthday.
    pub birthday: Option<String>,
    /// Death day, when the value is a string.
    pub deathday: Option<String>,
    /// Place of birth.
    pub place_of_birth: Option<String>,
    /// IMDB ID.
    pub imdb_id: Option<String>,
    /// Homepage, when the value is a string.
    pub homepage: Option<String>,
    /// Other names.
    pub also_known_as: Vec<String>,
}

/// An item of a TMDB multi-search response.
#[derive(Debug, Clone)]
pub struct TmdbMultiItem {
    /// TMDB ID.
    pub id: i64,
    /// `movie`, `tv` or `person`.
    pub media_type: Option<String>,
    /// Title (movies).
    pub title: Option<String>,
    /// Name (shows and people).
    pub name: Option<String>,
    /// Original title.
    pub original_title: Option<String>,
    /// Original name.
    pub original_name: Option<String>,
    /// Overview.
    pub overview: Option<String>,
    /// Release date (used for shows too).
    pub release_date: Option<String>,
    /// Poster path (used as the profile of people).
    pub poster_path: Option<String>,
    /// Backdrop path.
    pub backdrop_path: Option<String>,
    /// Genre IDs.
    pub genre_ids: Vec<i64>,
    /// Vote count.
    pub vote_count: i64,
    /// Original language.
    pub original_language: Option<String>,
    /// Adult flag.
    pub adult: bool,
}

/// An episode of a TMDB season or episode response.
#[derive(Debug, Clone)]
pub struct TmdbEpisode {
    /// Episode number.
    pub episode_number: i64,
    /// Name.
    pub name: Option<String>,
    /// Overview.
    pub overview: Option<String>,
    /// Air date.
    pub air_date: Option<String>,
    /// Runtime (0 when unknown).
    pub runtime: i64,
    /// Still path.
    pub still_path: Option<String>,
}

/// A TMDB season details response.
#[derive(Debug, Clone)]
pub struct TmdbSeason {
    /// Season number.
    pub season_number: i64,
    /// Name.
    pub name: Option<String>,
    /// Overview.
    pub overview: Option<String>,
    /// Air date.
    pub air_date: Option<String>,
    /// Poster path.
    pub poster_path: Option<String>,
    /// Episodes.
    pub episodes: Vec<TmdbEpisode>,
}

/// An episode in the unified model, without its floating-point vote average.
#[derive(Debug, Clone)]
pub struct EpisodeCore {
    /// Episode number within the season.
    pub episode_number: u32,
    /// Episode name.
    pub name: Option<String>,
    /// Episode overview.
    pub overview: Option<String>,
    /// Air date as a string (YYYY-MM-DD).
    pub air_date: Option<String>,
    /// Runtime in minutes.
    pub runtime: Option<u32>,
    /// Full still image URL.
    pub still_url: Option<String>,
}

/// Detailed season information, without the episodes' vote averages.
#[derive(Debug, Clone)]
pub struct SeasonDetailsCore {
    /// Provider-qualified show ID (e.g. `"tmdb:1396"`).
    pub show_id: String,
    /// Season number.
    pub season_number: u32,
    /// Season name.
    pub name: Option<String>,
    /// Overview / synopsis.
    pub overview: Option<String>,
    /// Air date as a string (YYYY-MM-DD).
    pub air_date: Option<String>,
    /// Full poster image URL.
    pub poster_url: Option<String>,
    /// Episodes in this season.
    pub episodes: Vec<EpisodeCore>,
}

/// The image URL of an optional path.
pub open spec fn opt_image(path: Option<String>, size: Seq<char>) -> Option<Seq<char>> {
    match path {
        Some(p) => Some(image_url(size, p@)),
        None => None,
    }
}

/// Resolve an optional poster path to a `w500` poster URL.
pub fn resolve_poster(path: &Option<String>) -> (r: Option<String>)
    ensures
        opt_view(r) == opt_image(*path, poster_size_text(PosterSize::W500)),
{
    match path {
        Some(p) => Some(ImageUrl::poster(p.as_str(), PosterSize::W500)),
        None => None,
    }
}

/// Resolve an optional backdrop path to a `w780` backdrop URL.
pub fn resolve_backdrop(path: &Option<String>) -> (r: Option<String>)
    ensures
        opt_view(r) == opt_image(*path, backdrop_size_text(BackdropSize::W780)),
{
    match path {
        Some(p) => Some(ImageUrl::backdrop(p.as_str(), BackdropSize::W780)),
        None => None,
    }
}

/// Resolve an optional profile path to a `h632` profile URL.
pub fn resolve_profile(path: &Option<String>) -> (r: Option<String>)
    ensures
        opt_view(r) == opt_image(*path, profile_size_text(ProfileSize::H632)),
{
    match path {
        Some(p) => Some(ImageUrl::profile(p.as_str(), ProfileSize::H632)),
        None => None,
    }
}

/// The provider-qualified ID of a TMDB item.
pub open spec fn tmdb_id(id: i64) -> Seq<char> {
    "tmdb:"@ + signed_decimal(id as int)
}

fn tmdb_id_text(id: i64) -> (r: String)
    ensures
        r@ == tmdb_id(id),
{
    let mut s = owned("tmdb:");
    push_signed_decimal(&mut s, id);
    s
}

/// The genres of TMDB genre IDs, one per ID in order.
pub open spec fn tmdb_genres(gs: Seq<Genre>, ids: Seq<i64>) -> bool {
    &&& gs.len() == ids.len()
    &&& forall|i: int| 0 <= i < ids.len() ==> match crate::genre::known_tmdb_genre(ids[i] as int) {
        Some(k) => #[trigger] gs[i] == k,
        None => gs[i] == Genre::Other(crate::genre::UnknownGenre::TmdbId(crate::genre::unknown_tmdb_id(ids[i]))),
    }
}

fn genres_of_ids(ids: &Vec<i64>) -> (r: Vec<Genre>)
    ensures
        tmdb_genres(r@, ids@),
{
    let mut out: Vec<Genre> = Vec::new();
    let mut i: usize = 0;
    while i < ids.len()
        invariant
            i <= ids@.len(),
            out@.len() == i,
            forall|k: int| 0 <= k < i ==> match crate::genre::known_tmdb_genre(ids@[k] as int) {
                Some(g) => #[trigger] out@[k] == g,
                None => out@[k] == Genre::Other(crate::genre::UnknownGenre::TmdbId(crate::genre::unknown_tmdb_id(ids@[k]))),
            },
        decreases ids.len() - i,
    {
        out.push(Genre::from_tmdb_id(ids[i]));
        i = i + 1;
    }
    out
}

/// The present names of a list of named objects, in order.
pub open spec fn present_names(v: Seq<TmdbNamed>) -> Seq<Seq<char>>
    decreases v.len(),
{
    if v.len() == 0 {
        Seq::empty()
    } else {
        present_names(v.drop_last()) + match v.last().name {
            Some(n) => seq![n@],
            None => Seq::empty(),
        }
    }
}

/// The present English names of a list of languages, in order.
pub open spec fn present_languages(v: Seq<TmdbLanguage>) -> Seq<Seq<char>>
    decreases v.len(),
{
    if v.len() == 0 {
        Seq::empty()
    } else {
        present_languages(v.drop_last()) + match v.last().english_name {
            Some(n) => seq![n@],
            None => Seq::empty(),
        }
    }
}

/// The texts of a sequence of strings.
pub open spec fn string_seq_texts(v: Seq<String>) -> Seq<Seq<char>> {
    v.map_values(|s: String| s@)
}

fn names_of(v: &Vec<TmdbNamed>) -> (r: Vec<String>)
    ensures
        string_seq_texts(r@) == present_names(v@),
{
    let mut out: Vec<String> = Vec::new();
    let mut i: usize = 0;
    while i < v.len()
        invariant
            i <= v@.len(),
            string_seq_texts(out@) == present_names(v@.take(i as int)),
        decreases v.len() - i,
    {
        match &v[i].name {
            Some(n) => {
                out.push(n.clone());
            },
            None => {},
        }
        assert(v@.take(i + 1).drop_last() =~= v@.take(i as int));
        assert(string_seq_texts(out@) =~= present_names(v@.take(i + 1)));
        i = i + 1;
    }
    assert(v@.take(v@.len() as int) =~= v@);
    out
}

fn languages_of(v: &Vec<TmdbLanguage>) -> (r: Vec<String>)
    ensures
        string_seq_texts(r@) == present_languages(v@),
{
    let mut out: Vec<String> = Vec::new();
    let mut i: usize = 0;
    while i < v.len()
        invariant
            i <= v@.len(),
            string_seq_texts(out@) == present_languages(v@.take(i as int)),
        decreases v.len() - i,
    {
        match &v[i].english_name {
            Some(n) => {
                out.push(n.clone());
            },
            None => {},
        }
        assert(v@.take(i + 1).drop_last() =~= v@.take(i as int));
        assert(string_seq_texts(out@) =~= present_languages(v@.take(i + 1)));
        i = i + 1;
    }
    assert(v@.take(v@.len() as int) =~= v@);
    out
}

/// The genres named by TMDB genre names, one per name in order.
pub open spec fn named_genres(gs: Seq<Genre>, names: Seq<Seq<char>>) -> bool {
    &&& gs.len() == names.len()
    &&& forall|i: int| 0 <= i < names.len() ==> genre_for_lowered(
        #[trigger] gs[i],
        lowercase(names[i]),
        known_genre_name(lowercase(names[i])),
    )
}

fn genres_of_names(v: &Vec<TmdbNamed>) -> (r: Vec<Genre>)
    ensures
        named_genres(r@, present_names(v@)),
{
    let names = names_of(v);
    let mut out: Vec<Genre> = Vec::new();
    let mut i: usize = 0;
    while i < names.len()
        invariant
            i <= names@.len(),
            out@.len() == i,
            string_seq_texts(names@) == present_names(v@),
            forall|k: int| 0 <= k < i ==> genre_for_lowered(
                #[trigger] out@[k],
                lowercase(names@[k]@),
                known_genre_name(lowercase(names@[k]@)),
            ),
        decreases names.len() - i,
    {
        out.push(Genre::from_name(names[i].as_str()));
        i = i + 1;
    }
    proof {
        assert forall|k: int| 0 <= k < present_names(v@).len() implies genre_for_lowered(
            #[trigger] out@[k],
            lowercase(present_names(v@)[k]),
            known_genre_name(lowercase(present_names(v@)[k])),
        ) by {
            assert(string_seq_texts(names@)[k] == names@[k]@);
        }
    }
    out
}

fn clone_strings(v: &Vec<String>) -> (r: Vec<String>)
    ensures
        r@ == v@,
{
    let mut out: Vec<String> = Vec::new();
    let mut i: usize = 0;
    while i < v.len()
        invariant
            i <= v@.len(),
            out@ == v@.take(i as int),
        decreases v.len() - i,
    {
        out.push(v[i].clone());
        i = i + 1;
        assert(out@ =~= v@.take(i as int));
    }
    assert(v@.take(v@.len() as int) =~= v@);
    out
}

/// A positive count kept as `u32` (cut to 32 bits as `as u32` does); zero or
/// a negative count gives `None`.
pub open spec fn positive_u32(v: i64) -> Option<u32> {
    if v > 0 { Some(v as u32) } else { None }
}

/// A positive amount kept as `u64`; zero or a negative amount gives `None`.
pub open spec fn positive_u64(v: i64) -> Option<u64> {
    if v > 0 { Some(v as u64) } else { None }
}

fn pos_u32(v: i64) -> (r: Option<u32>)
    ensures
        r == positive_u32(v),
{
    if v > 0 { Some(#[verifier::truncate] (v as u32)) } else { None }
}

fn pos_u64(v: i64) -> (r: Option<u64>)
    ensures
        r == positive_u64(v),
{
    if v > 0 { Some(v as u64) } else { None }
}

/// `r` is the unified movie of a TMDB list item.
pub open spec fn movie_of_tmdb(r: MovieCore, m: TmdbMovieItem) -> bool {
    &&& r.provider_id@ == tmdb_id(m.id)
    &&& r.title@ == (match m.title { Some(t) => t@, None => Seq::empty() })
    &&& r.original_title == m.original_title
    &&& r.overview == m.overview
    &&& r.release_date == m.release_date
    &&& opt_view(r.poster_url) == opt_image(m.poster_path, poster_size_text(PosterSize::W500))
    &&& opt_view(r.backdrop_url) == opt_image(m.backdrop_path, backdrop_size_text(BackdropSize::W780))
    &&& tmdb_genres(r.genres@, m.genre_ids@)
    &&& r.vote_count == m.vote_count as u64
    &&& r.original_language == m.original_language
    &&& r.adult == m.adult
}

fn text_or_empty(o: &Option<String>) -> (r: String)
    ensures
        r@ == (match *o { Some(t) => t@, None => Seq::<char>::empty() }),
{
    match o {
        Some(t) => t.clone(),
        None => String::new(),
    }
}

/// Convert a TMDB movie list item to a unified movie.
pub fn tmdb_movie(m: &TmdbMovieItem) -> (r: MovieCore)
    ensures
        movie_of_tmdb(r, *m),
{
    MovieCore {
        provider_id: tmdb_id_text(m.id),
        title: text_or_empty(&m.title),
        original_title: clone_opt(&m.original_title),
        overview: clone_opt(&m.overview),
        release_date: clone_opt(&m.release_date),
        poster_url: resolve_poster(&m.poster_path),
        backdrop_url: resolve_backdrop(&m.backdrop_path),
        genres: genres_of_ids(&m.genre_ids),
        vote_count: #[verifier::truncate] (m.vote_count as u64),
        original_language: clone_opt(&m.original_language),
        adult: m.adult,
    }
}

/// `r` is the unified TV show of a TMDB list item.
pub open spec fn tv_of_tmdb(r: TvShowCore, t: TmdbTvItem) -> bool {
    &&& r.provider_id@ == tmdb_id(t.id)
    &&& r.name@ == (match t.name { Some(n) => n@, None => Seq::empty() })
    &&& r.original_name == t.original_name
    &&& r.overview == t.overview
    &&& r.first_air_date == t.first_air_date
    &&& opt_view(r.poster_url) == opt_image(t.poster_path, poster_size_text(PosterSize::W500))
    &&& opt_view(r.backdrop_url) == opt_image(t.backdrop_path, backdrop_size_text(BackdropSize::W780))
    &&& tmdb_genres(r.genres@, t.genre_ids@)
    &&& r.vote_count == t.vote_count as u64
    &&& r.original_language == t.original_language
    &&& r.origin_country@ == t.origin_country@
    &&& r.adult == t.adult
}

/// Convert a TMDB TV list item to a unified TV show.
pub fn tmdb_tv(t: &TmdbTvItem) -> (r: TvShowCore)
    ensures
        tv_of_tmdb(r, *t),
{
    TvShowCore {
        provider_id: tmdb_id_text(t.id),
        name: text_or_empty(&t.name),
        original_name: clone_opt(&t.original_name),
        overview: clone_opt(&t.overview),
        first_air_date: clone_opt(&t.first_air_date),
        poster_url: resolve_poster(&t.poster_path),
        backdrop_url: resolve_backdrop(&t.backdrop_path),
        genres: genres_of_ids(&t.genre_ids),
        vote_count: #[verifier::truncate] (t.vote_count as u64),
        original_language: clone_opt(&t.original_language),
        origin_country: clone_strings(&t.origin_country),
        adult: t.adult,
    }
}

/// `r` is the unified movie details of a TMDB movie details response.
pub open spec fn movie_details_of_tmdb(r: MovieDetailsCore, m: TmdbMovieDetails) -> bool {
    &&& r.movie.provider_id@ == tmdb_id(m.id)
    &&& r.movie.title@ == (match m.title { Some(t) => t@, None => Seq::empty() })
    &&& r.movie.original_title == m.original_title
    &&& r.movie.overview == m.overview
    &&& r.movie.release_date == m.release_date
    &&& opt_view(r.movie.poster_url) == opt_image(m.poster_path, poster_size_text(PosterSize::W500))
    &&& opt_view(r.movie.backdrop_url) == opt_image(m.backdrop_path, backdrop_size_text(BackdropSize::W780))
    &&& named_genres(r.movie.genres@, present_names(m.genres@))
    &&& r.movie.vote_count == m.vote_count as u64
    &&& r.movie.original_language == m.original_language
    &&& r.movie.adult == m.adult
    &&& r.tagline == m.tagline
    &&& r.runtime == positive_u32(m.runtime)
    &&& r.budget == positive_u64(m.budget)
    &&& r.revenue == positive_u64(m.revenue)
    &&& r.status == m.status
    &&& r.homepage == m.homepage
    &&& r.imdb_id == m.imdb_id
    &&& string_seq_texts(r.production_companies@) == present_names(m.production_companies@)
    &&& string_seq_texts(r.production_countries@) == present_names(m.production_countries@)
    &&& string_seq_texts(r.spoken_languages@) == present_languages(m.spoken_languages@)
    &&& r.video == m.video
    &&& r.belongs_to_collection == m.collection_name
}

/// Convert a TMDB movie details response to unified movie details.
pub fn tmdb_movie_details(m: &TmdbMovieDetails) -> (r: MovieDetailsCore)
    ensures
        movie_details_of_tmdb(r, *m),
{
    MovieDetailsCore {
        movie: MovieCore {
            provider_id: tmdb_id_text(m.id),
            title: text_or_empty(&m.title),
            original_title: clone_opt(&m.original_title),
            overview: clone_opt(&m.overview),
            release_date: clone_opt(&m.release_date),
            poster_url: resolve_poster(&m.poster_path),
            backdrop_url: resolve_backdrop(&m.backdrop_path),
            genres: genres_of_names(&m.genres),
            vote_count: #[verifier::truncate] (m.vote_count as u64),
            original_language: clone_opt(&m.original_language),
            adult: m.adult,
        },
        tagline: clone_opt(&m.tagline),
        runtime: pos_u32(m.runtime),
        budget: pos_u64(m.budget),
        revenue: pos_u64(m.revenue),
        status: clone_opt(&m.status),
        homepage: clone_opt(&m.homepage),
        imdb_id: clone_opt(&m.imdb_id),
        production_companies: names_of(&m.production_companies),
        production_countries: names_of(&m.production_countries),
        spoken_languages: languages_of(&m.spoken_languages),
        video: m.video,
        belongs_to_collection: clone_opt(&m.collection_name),
    }
}

/// Each run time cut to `u32` as `as u32` does.
pub open spec fn run_times(v: Seq<i64>) -> Seq<u32> {
    v.map_values(|r: i64| r as u32)
}

fn run_times_of(v: &Vec<i64>) -> (r: Vec<u32>)
    ensures
        r@ == run_times(v@),
{
    let mut out: Vec<u32> = Vec::new();
    let mut i: usize = 0;
    while i < v.len()
        invariant
            i <= v@.len(),
            out@ == run_times(v@.take(i as int)),
        decreases v.len() - i,
    {
        out.push(#[verifier::truncate] (v[i] as u32));
        i = i + 1;
        assert(out@ =~= run_times(v@.take(i as int)));
    }
    assert(v@.take(v@.len() as int) =~= v@);
    out
}

/// `r` is the unified TV show details of a TMDB TV series details response.
pub open spec fn tv_details_of_tmdb(r: TvShowDetailsCore, t: TmdbTvDetails) -> bool {
    &&& r.show.provider_id@ == tmdb_id(t.id)
    &&& r.show.name@ == (match t.name { Some(n) => n@, None => Seq::empty() })
    &&& r.show.original_name == t.original_name
    &&& r.show.overview == t.overview
    &&& r.show.first_air_date == t.first_air_date
    &&& opt_view(r.show.poster_url) == opt_image(t.poster_path, poster_size_text(PosterSize::W500))
    &&& opt_view(r.show.backdrop_url) == opt_image(t.backdrop_path, backdrop_size_text(BackdropSize::W780))
    &&& named_genres(r.show.genres@, present_names(t.genres@))
    &&& r.show.vote_count == t.vote_count as u64
    &&& r.show.original_language == t.original_language
    &&& r.show.origin_country@ == t.origin_country@
    &&& r.show.adult == t.adult
    &&& r.tagline == t.tagline
    &&& r.number_of_seasons == t.number_of_seasons as u32
    &&& r.number_of_episodes == t.number_of_episodes as u32
    &&& r.in_production == t.in_production
    &&& r.status == t.status
    &&& r.homepage == t.homepage
    &&& string_seq_texts(r.networks@) == present_names(t.networks@)
    &&& string_seq_texts(r.production_companies@) == present_names(t.production_companies@)
    &&& r.last_air_date == t.last_air_date
    &&& r.type_ == t.type_
    &&& string_seq_texts(r.created_by@) == present_names(t.created_by@)
    &&& r.episode_run_time@ == run_times(t.episode_run_time@)
    &&& string_seq_texts(r.spoken_languages@) == present_languages(t.spoken_languages@)
    &&& string_seq_texts(r.production_countries@) == present_names(t.production_countries@)
}

/// Convert a TMDB TV series details response to unified TV show details.
pub fn tmdb_tv_details(t: &TmdbTvDetails) -> (r: TvShowDetailsCore)
    ensures
        tv_details_of_tmdb(r, *t),
{
    TvShowDetailsCore {
        show: TvShowCore {
            provider_id: tmdb_id_text(t.id),
            name: text_or_empty(&t.name),
            original_name: clone_opt(&t.original_name),
            overview: clone_opt(&t.overview),
            first_air_date: clone_opt(&t.first_air_date),
            poster_url: resolve_poster(&t.poster_path),
            backdrop_url: resolve_backdrop(&t.backdrop_path),
            genres: genres_of_names(&t.genres),
            vote_count: #[verifier::truncate] (t.vote_count as u64),
            original_language: clone_opt(&t.original_language),
            origin_country: clone_strings(&t.origin_country),
            adult: t.adult,
        },
        tagline: clone_opt(&t.tagline),
        number_of_seasons: #[verifier::truncate] (t.number_of_seasons as u32),
        number_of_episodes: #[verifier::truncate] (t.number_of_episodes as u32),
        in_production: t.in_production,
        status: clone_opt(&t.status),
        homepage: clone_opt(&t.homepage),
        networks: names_of(&t.networks),
        production_companies: names_of(&t.production_companies),
        last_air_date: clone_opt(&t.last_air_date),
        type_: clone_opt(&t.type_),
        created_by: names_of(&t.created_by),
        episode_run_time: run_times_of(&t.episode_run_time),
        spoken_languages: languages_of(&t.spoken_languages),
        production_countries: names_of(&t.production_countries),
    }
}

/// `r` is the unified person of a TMDB person.
pub open spec fn person_of_tmdb(r: PersonCore, p: TmdbPersonItem) -> bool {
    &&& r.provider_id@ == tmdb_id(p.id)
    &&& r.name@ == (match p.name { Some(n) => n@, None => Seq::empty() })
    &&& r.known_for_department == p.known_for_department
    &&& opt_view(r.profile_url) == opt_image(p.profile_path, profile_size_text(ProfileSize::H632))
    &&& r.gender == Some(p.gender as i32)
    &&& r.adult == p.adult
}

/// Convert a TMDB person to a unified person.
pub fn tmdb_person(p: &TmdbPersonItem) -> (r: PersonCore)
    ensures
        person_of_tmdb(r, *p),
{
    PersonCore {
        provider_id: tmdb_id_text(p.id),
        name: text_or_empty(&p.name),
        known_for_department: clone_opt(&p.known_for_department),
        profile_url: resolve_profile(&p.profile_path),
        gender: Some(#[verifier::truncate] (p.gender as i32)),
        adult: p.adult,
    }
}

/// `r` is the unified person details of a TMDB person details response.
pub open spec fn person_details_of_tmdb(r: PersonDetailsCore, p: TmdbPersonDetails) -> bool {
    &&& person_of_tmdb(r.person, p.person)
    &&& r.biography == p.biography
    &&& r.birthday == p.birthday
    &&& r.deathday == p.deathday
    &&& r.place_of_birth == p.place_of_birth
    &&& r.imdb_id == p.imdb_id
    &&& r.homepage == p.homepage
    &&& r.also_known_as@ == p.also_known_as@
}

/// Convert a TMDB person details response to unified person details.
pub fn tmdb_person_details(p: &TmdbPersonDetails) -> (r: PersonDetailsCore)
    ensures
        person_details_of_tmdb(r, *p),
{
    PersonDetailsCore {
        person: tmdb_person(&p.person),
        biography: clone_opt(&p.biography),
        birthday: clone_opt(&p.birthday),
        deathday: clone_opt(&p.deathday),
        place_of_birth: clone_opt(&p.place_of_birth),
        imdb_id: clone_opt(&p.imdb_id),
        homepage: clone_opt(&p.homepage),
        also_known_as: clone_strings(&p.also_known_as),
    }
}

/// The first present option of two.
pub open spec fn first_of(a: Option<String>, b: Option<String>) -> Seq<char> {
    match a {
        Some(x) => x@,
        None => match b {
            Some(y) => y@,
            None => Seq::empty(),
        },
    }
}

/// `r` is the unified search result of a TMDB multi-search item: a movie for
/// media type `movie`, a TV show for `tv`, a person for anything else.
pub open spec fn search_result_of_tmdb(r: SearchResultCore, it: TmdbMultiItem) -> bool {
    if opt_view(it.media_type) == Some("movie"@) {
        r matches SearchResultCore::Movie(m) && {
            &&& m.provider_id@ == tmdb_id(it.id)
            &&& m.title@ == first_of(it.title, it.name)
            &&& m.original_title == it.original_title
            &&& m.overview == it.overview
            &&& m.release_date == it.release_date
            &&& opt_view(m.poster_url) == opt_image(it.poster_path, poster_size_text(PosterSize::W500))
            &&& opt_view(m.backdrop_url) == opt_image(it.backdrop_path, backdrop_size_text(BackdropSize::W780))
            &&& tmdb_genres(m.genres@, it.genre_ids@)
            &&& m.vote_count == (if it.vote_count < 0 { 0 } else { it.vote_count }) as u64
            &&& m.original_language == it.original_language
            &&& m.adult == it.adult
        }
    } else if opt_view(it.media_type) == Some("tv"@) {
        r matches SearchResultCore::TvShow(t) && {
            &&& t.provider_id@ == tmdb_id(it.id)
            &&& t.name@ == first_of(it.name, it.title)
            &&& t.original_name == it.original_name
            &&& t.overview == it.overview
            &&& t.first_air_date == it.release_date
            &&& opt_view(t.poster_url) == opt_image(it.poster_path, poster_size_text(PosterSize::W500))
            &&& opt_view(t.backdrop_url) == opt_image(it.backdrop_path, backdrop_size_text(BackdropSize::W780))
            &&& tmdb_genres(t.genres@, it.genre_ids@)
            &&& t.vote_count == (if it.vote_count < 0 { 0 } else { it.vote_count }) as u64
            &&& t.original_language == it.original_language
            &&& t.origin_country@.len() == 0
            &&& t.adult == it.adult
        }
    } else {
        r matches SearchResultCore::Person(p) && {
            &&& p.provider_id@ == tmdb_id(it.id)
            &&& p.name@ == first_of(it.name, it.title)
            &&& p.known_for_department is None
            &&& opt_view(p.profile_url) == opt_image(it.poster_path, poster_size_text(PosterSize::W500))
            &&& p.gender is None
            &&& p.adult == it.adult
        }
    }
}

fn first_text(a: &Option<String>, b: &Option<String>) -> (r: String)
    ensures
        r@ == first_of(*a, *b),
{
    match a {
        Some(x) => x.clone(),
        None => match b {
            Some(y) => y.clone(),
            None => String::new(),
        },
    }
}

/// Convert a TMDB multi-search item to a unified search result.
pub fn tmdb_search_result(it: &TmdbMultiItem) -> (r: SearchResultCore)
    ensures
        search_result_of_tmdb(r, *it),
{
    let kind: u8 = match &it.media_type {
        Some(m) => if eq_text(m, "movie") { 0 } else if eq_text(m, "tv") { 1 } else { 2 },
        None => 2,
    };
    let votes: i64 = if it.vote_count < 0 { 0 } else { it.vote_count };
    if kind == 0 {
        SearchResultCore::Movie(MovieCore {
            provider_id: tmdb_id_text(it.id),
            title: first_text(&it.title, &it.name),
            original_title: clone_opt(&it.original_title),
            overview: clone_opt(&it.overview),
            release_date: clone_opt(&it.release_date),
            poster_url: resolve_poster(&it.poster_path),
            backdrop_url: resolve_backdrop(&it.backdrop_path),
            genres: genres_of_ids(&it.genre_ids),
            vote_count: votes as u64,
            original_language: clone_opt(&it.original_language),
            adult: it.adult,
        })
    } else if kind == 1 {
        SearchResultCore::TvShow(TvShowCore {
            provider_id: tmdb_id_text(it.id),
            name: first_text(&it.name, &it.title),
            original_name: clone_opt(&it.original_name),
            overview: clone_opt(&it.overview),
            first_air_date: clone_opt(&it.release_date),
            poster_url: resolve_poster(&it.poster_path),
            backdrop_url: resolve_backdrop(&it.backdrop_path),
            genres: genres_of_ids(&it.genre_ids),
            vote_count: votes as u64,
            original_language: clone_opt(&it.original_language),
            origin_country: Vec::new(),
            adult: it.adult,
        })
    } else {
        SearchResultCore::Person(PersonCore {
            provider_id: tmdb_id_text(it.id),
            name: first_text(&it.name, &it.title),
            known_for_department: None,
            profile_url: resolve_poster(&it.poster_path),
            gender: None,
            adult: it.adult,
        })
    }
}

/// `r` is the unified episode of a TMDB episode.
pub open spec fn episode_of_tmdb(r: EpisodeCore, e: TmdbEpisode) -> bool {
    &&& r.episode_number == e.episode_number as u32
    &&& r.name == e.name
    &&& r.overview == e.overview
    &&& r.air_date == e.air_date
    &&& r.runtime == positive_u32(e.runtime)
    &&& opt_view(r.still_url) == opt_image(e.still_path, still_size_text(StillSize::W300))
}

/// Convert a TMDB episode to a unified episode.
pub fn tmdb_episode(e: &TmdbEpisode) -> (r: EpisodeCore)
    ensures
        episode_of_tmdb(r, *e),
{
    EpisodeCore {
        episode_number: #[verifier::truncate] (e.episode_number as u32),
        name: clone_opt(&e.name),
        overview: clone_opt(&e.overview),
        air_date: clone_opt(&e.air_date),
        runtime: pos_u32(e.runtime),
        still_url: match &e.still_path {
            Some(p) => Some(ImageUrl::still(p.as_str(), StillSize::W300)),
            None => None,
        },
    }
}

/// Convert a TMDB season of a series to unified season details; the show ID
/// is the series' TMDB ID, qualified.
pub fn tmdb_season(series_id: i32, s: &TmdbSeason) -> (r: SeasonDetailsCore)
    ensures
        r.show_id@ == tmdb_id(series_id as i64),
        r.season_number == s.season_number as u32,
        r.name == s.name,
        r.overview == s.overview,
        r.air_date == s.air_date,
        opt_view(r.poster_url) == opt_image(s.poster_path, poster_size_text(PosterSize::W500)),
        r.episodes@.len() == s.episodes@.len(),
        forall|i: int| 0 <= i < s.episodes@.len() ==> episode_of_tmdb(#[trigger] r.episodes@[i], s.episodes@[i]),
{
    let mut episodes: Vec<EpisodeCore> = Vec::new();
    let mut i: usize = 0;
    while i < s.episodes.len()
        invariant
            i <= s.episodes@.len(),
            episodes@.len() == i,
            forall|k: int| 0 <= k < i ==> episode_of_tmdb(#[trigger] episodes@[k], s.episodes@[k]),
        decreases s.episodes.len() - i,
    {
        episodes.push(tmdb_episode(&s.episodes[i]));
        i = i + 1;
    }
    SeasonDetailsCore {
        show_id: tmdb_id_text(series_id as i64),
        season_number: #[verifier::truncate] (s.season_number as u32),
        name: clone_opt(&s.name),
        overview: clone_opt(&s.overview),
        air_date: clone_opt(&s.air_date),
        poster_url: resolve_poster(&s.poster_path),
        episodes,
    }
}

} // verus!
