//! Conversions from AniList responses to the unified models.
use vstd::prelude::*;
use vstd::string::StringExecFns;

use crate::anilist_response::{
    date_text, opt_view, AniListCoverImage, AniListDate, AniListMedia, AniListMediaDetail,
    AniListStaff, AniListStaffDetail, AniListStaffImage, AniListStaffName, AniListStudio,
    AniListStudios, AniListTitle,
};
use crate::genre::{genre_for_lowered, known_anilist_genre, Genre};
use crate::models::{
    MovieCore, MovieDetailsCore, PersonCore, PersonDetailsCore, SearchResultCore, TvShowCore,
    TvShowDetailsCore,
};
use crate::text::{eq_text, owned, push_signed_decimal, signed_decimal, to_lowercase, lowercase};

verus! {

/// A copy of an optional string.
pub fn clone_opt(o: &Option<String>) -> (r: Option<String>)
    ensures
        r == *o,
{
    match o {
        Some(s) => Some(s.clone()),
        None => None,
    }
}

/// The preferred title: the English one, else the romanized one, else empty.
pub open spec fn preferred_title(t: Option<AniListTitle>) -> Seq<char> {
    match t {
        Some(t) => match t.english {
            Some(e) => e@,
            None => match t.romaji {
                Some(r) => r@,
                None => Seq::empty(),
            },
        },
        None => Seq::empty(),
    }
}

/// The title in the original script, if any.
pub open spec fn native_title(t: Option<AniListTitle>) -> Option<Seq<char>> {
    match t {
        Some(t) => opt_view(t.native),
        None => None,
    }
}

/// The preferred cover URL: the extra-large one, else the large one.
pub open spec fn preferred_cover(c: Option<AniListCoverImage>) -> Option<Seq<char>> {
    match c {
        Some(c) => match c.extra_large {
            Some(x) => Some(x@),
            None => opt_view(c.large),
        },
        None => None,
    }
}

/// The rough ISO 639-1 language of an ISO 3166-1 country code: Japan to
/// Japanese, China and Taiwan to Chinese, Korea to Korean; any other code is
/// kept as it is.
pub open spec fn language_of_country(country: Seq<char>) -> Seq<char> {
    if country == "JP"@ {
        "ja"@
    } else if country == "CN"@ {
        "zh"@
    } else if country == "KR"@ {
        "ko"@
    } else if country == "TW"@ {
        "zh"@
    } else {
        country
    }
}

/// The language for an optional country of origin.
pub open spec fn origin_language(country: Option<String>) -> Option<Seq<char>> {
    match country {
        Some(c) => Some(language_of_country(c@)),
        None => None,
    }
}

/// The origin-country list: the one country, or none.
pub open spec fn origin_countries(country: Option<String>) -> Seq<Seq<char>> {
    match country {
        Some(c) => seq![c@],
        None => Seq::empty(),
    }
}

/// The texts of a vector of strings.
pub open spec fn texts(v: Seq<String>) -> Seq<Seq<char>> {
    v.map_values(|s: String| s@)
}

/// The genre list mapped from AniList genre names, one genre per name in order.
pub open spec fn anilist_genres(gs: Seq<Genre>, names: Option<Vec<String>>) -> bool {
    let ns: Seq<String> = match names { Some(v) => v@, None => Seq::empty() };
    &&& gs.len() == ns.len()
    &&& forall|i: int| 0 <= i < ns.len() ==> genre_for_lowered(
        #[trigger] gs[i],
        lowercase(ns[i]@),
        known_anilist_genre(lowercase(ns[i]@)),
    )
}

/// The text of an optional fuzzy date.
pub open spec fn opt_date_text(d: Option<AniListDate>) -> Option<Seq<char>> {
    match d {
        Some(d) => date_text(d),
        None => None,
    }
}

/// The provider-qualified ID of an AniList media entry.
pub open spec fn anilist_media_id(id: i32) -> Seq<char> {
    "anilist:"@ + signed_decimal(id as int)
}

/// The provider-qualified ID of an AniList staff member.
pub open spec fn anilist_staff_id(id: i32) -> Seq<char> {
    "anilist:staff:"@ + signed_decimal(id as int)
}

/// A non-negative `i32` kept as `u32`; negative values become 0.
pub open spec fn non_negative(v: i32) -> u32 {
    if v < 0 { 0 } else { v as u32 }
}

/// `r` is the unified movie of an AniList media entry.
pub open spec fn movie_of_media(r: MovieCore, m: AniListMedia) -> bool {
    &&& r.provider_id@ == anilist_media_id(m.id)
    &&& r.title@ == preferred_title(m.title)
    &&& opt_view(r.original_title) == native_title(m.title)
    &&& r.overview == m.description
    &&& opt_view(r.release_date) == opt_date_text(m.start_date)
    &&& opt_view(r.poster_url) == preferred_cover(m.cover_image)
    &&& r.backdrop_url == m.banner_image
    &&& anilist_genres(r.genres@, m.genres)
    &&& r.vote_count == 0
    &&& opt_view(r.original_language) == origin_language(m.country_of_origin)
    &&& r.adult == (m.is_adult == Some(true))
}

/// `r` is the unified TV show of an AniList media entry.
pub open spec fn tv_of_media(r: TvShowCore, m: AniListMedia) -> bool {
    &&& r.provider_id@ == anilist_media_id(m.id)
    &&& r.name@ == preferred_title(m.title)
    &&& opt_view(r.original_name) == native_title(m.title)
    &&& r.overview == m.description
    &&& opt_view(r.first_air_date) == opt_date_text(m.start_date)
    &&& opt_view(r.poster_url) == preferred_cover(m.cover_image)
    &&& r.backdrop_url == m.banner_image
    &&& anilist_genres(r.genres@, m.genres)
    &&& r.vote_count == 0
    &&& opt_view(r.original_language) == origin_language(m.country_of_origin)
    &&& texts(r.origin_country@) == origin_countries(m.country_of_origin)
    &&& r.adult == (m.is_adult == Some(true))
}

/// Resolve the best English title from an AniList media entry.
pub fn resolve_title(media: &AniListMedia) -> (r: String)
    ensures
        r@ == preferred_title(media.title),
{
    title_text(&media.title)
}

/// Resolve the best English title from an AniList detail entry.
pub fn resolve_detail_title(media: &AniListMediaDetail) -> (r: String)
    ensures
        r@ == preferred_title(media.title),
{
    title_text(&media.title)
}

fn title_text(t: &Option<AniListTitle>) -> (r: String)
    ensures
        r@ == preferred_title(*t),
{
    match t {
        Some(t) => match &t.english {
            Some(e) => e.clone(),
            None => match &t.romaji {
                Some(r) => r.clone(),
                None => String::new(),
            },
        },
        None => String::new(),
    }
}

fn native_text(t: &Option<AniListTitle>) -> (r: Option<String>)
    ensures
        opt_view(r) == native_title(*t),
{
    match t {
        Some(t) => clone_opt(&t.native),
        None => None,
    }
}

/// Resolve the cover image URL (prefer extra-large).
pub fn resolve_cover(media: &AniListMedia) -> (r: Option<String>)
    ensures
        opt_view(r) == preferred_cover(media.cover_image),
{
    cover_text(&media.cover_image)
}

/// Resolve the cover image URL of a detail entry (prefer extra-large).
pub fn resolve_cover_detail(media: &AniListMediaDetail) -> (r: Option<String>)
    ensures
        opt_view(r) == preferred_cover(media.cover_image),
{
    cover_text(&media.cover_image)
}

fn cover_text(c: &Option<AniListCoverImage>) -> (r: Option<String>)
    ensures
        opt_view(r) == preferred_cover(*c),
{
    match c {
        Some(c) => match &c.extra_large {
            Some(x) => Some(x.clone()),
            None => clone_opt(&c.large),
        },
        None => None,
    }
}

/// Convert an ISO 3166-1 alpha-2 country code to a rough ISO 639-1 language code.
///
/// This is a best-effort mapping for common anime origins.
pub fn country_to_language(country: &str) -> (r: String)
    ensures
        r@ == language_of_country(country@),
{
    let c = owned(country);
    if eq_text(&c, "JP") {
        owned("ja")
    } else if eq_text(&c, "CN") {
        owned("zh")
    } else if eq_text(&c, "KR") {
        owned("ko")
    } else if eq_text(&c, "TW") {
        owned("zh")
    } else {
        c
    }
}

fn language_opt(country: &Option<String>) -> (r: Option<String>)
    ensures
        opt_view(r) == origin_language(*country),
{
    match country {
        Some(c) => Some(country_to_language(c.as_str())),
        None => None,
    }
}

fn countries_opt(country: &Option<String>) -> (r: Vec<String>)
    ensures
        texts(r@) == origin_countries(*country),
{
    let mut v: Vec<String> = Vec::new();
    match country {
        Some(c) => {
            v.push(c.clone());
        },
        None => {},
    }
    assert(texts(v@) =~= origin_countries(*country));
    v
}

/// Map AniList genre names to genres.
pub fn map_genres(genres: &Option<Vec<String>>) -> (r: Vec<Genre>)
    ensures
        anilist_genres(r@, *genres),
{
    let mut out: Vec<Genre> = Vec::new();
    match genres {
        Some(names) => {
            let mut i: usize = 0;
            while i < names.len()
                invariant
                    i <= names@.len(),
                    out@.len() == i,
                    forall|k: int| 0 <= k < i ==> genre_for_lowered(
                        #[trigger] out@[k],
                        lowercase(names@[k]@),
                        known_anilist_genre(lowercase(names@[k]@)),
                    ),
                decreases names.len() - i,
            {
                let g = Genre::from_anilist_genre(names[i].as_str());
                out.push(g);
                i = i + 1;
            }
        },
        None => {},
    }
    out
}

fn date_opt(d: &Option<AniListDate>) -> (r: Option<String>)
    ensures
        opt_view(r) == opt_date_text(*d),
{
    match d {
        Some(d) => d.to_date_string(),
        None => None,
    }
}

fn media_id(prefix: &str, id: i32) -> (r: String)
    ensures
        r@ == prefix@ + signed_decimal(id as int),
{
    let mut s = owned(prefix);
    push_signed_decimal(&mut s, id as i64);
    s
}

/// Convert an AniList media entry to a unified movie.
pub fn anilist_media_to_movie(m: AniListMedia) -> (r: MovieCore)
    ensures
        movie_of_media(r, m),
{
    movie_from_media(&m)
}

/// The unified movie of a borrowed AniList media entry.
pub fn movie_from_media(m: &AniListMedia) -> (r: MovieCore)
    ensures
        movie_of_media(r, *m),
{
    MovieCore {
        provider_id: media_id("anilist:", m.id),
        title: resolve_title(&m),
        original_title: native_text(&m.title),
        overview: clone_opt(&m.description),
        release_date: date_opt(&m.start_date),
        poster_url: resolve_cover(&m),
        backdrop_url: clone_opt(&m.banner_image),
        genres: map_genres(&m.genres),
        vote_count: 0,
        original_language: language_opt(&m.country_of_origin),
        adult: match m.is_adult { Some(b) => b, None => false },
    }
}

/// Convert an AniList media entry to a unified TV show.
pub fn anilist_media_to_tv(m: AniListMedia) -> (r: TvShowCore)
    ensures
        tv_of_media(r, m),
{
    tv_from_media(&m)
}

/// The unified TV show of a borrowed AniList media entry.
pub fn tv_from_media(m: &AniListMedia) -> (r: TvShowCore)
    ensures
        tv_of_media(r, *m),
{
    TvShowCore {
        provider_id: media_id("anilist:", m.id),
        name: resolve_title(&m),
        original_name: native_text(&m.title),
        overview: clone_opt(&m.description),
        first_air_date: date_opt(&m.start_date),
        poster_url: resolve_cover(&m),
        backdrop_url: clone_opt(&m.banner_image),
        genres: map_genres(&m.genres),
        vote_count: 0,
        original_language: language_opt(&m.country_of_origin),
        origin_country: countries_opt(&m.country_of_origin),
        adult: match m.is_adult { Some(b) => b, None => false },
    }
}

/// Dispatch an AniList media entry to a movie or a TV show by its `format`:
/// `MOVIE` gives a movie, every other format (or none) a TV show.
pub fn anilist_media_to_search_result(m: AniListMedia) -> (r: SearchResultCore)
    ensures
        opt_view(m.format) == Some("MOVIE"@) ==> (r matches SearchResultCore::Movie(x) && movie_of_media(x, m)),
        opt_view(m.format) != Some("MOVIE"@) ==> (r matches SearchResultCore::TvShow(x) && tv_of_media(x, m)),
{
    search_result_from_media(&m)
}

/// The search result of a borrowed AniList media entry.
pub fn search_result_from_media(m: &AniListMedia) -> (r: SearchResultCore)
    ensures
        opt_view(m.format) == Some("MOVIE"@) ==> (r matches SearchResultCore::Movie(x) && movie_of_media(x, *m)),
        opt_view(m.format) != Some("MOVIE"@) ==> (r matches SearchResultCore::TvShow(x) && tv_of_media(x, *m)),
{
    let is_movie = match &m.format {
        Some(f) => eq_text(f, "MOVIE"),
        None => false,
    };
    if is_movie {
        SearchResultCore::Movie(movie_from_media(m))
    } else {
        SearchResultCore::TvShow(tv_from_media(m))
    }
}


/// The names of the studios that have one, in order.
pub open spec fn studio_names(nodes: Seq<AniListStudio>) -> Seq<Seq<char>>
    decreases nodes.len(),
{
    if nodes.len() == 0 {
        Seq::empty()
    } else {
        studio_names(nodes.drop_last()) + match nodes.last().name {
            Some(n) => seq![n@],
            None => Seq::empty(),
        }
    }
}

/// The studio names of an optional studio list.
pub open spec fn opt_studio_names(s: Option<AniListStudios>) -> Seq<Seq<char>> {
    match s {
        Some(s) => studio_names(s.nodes@),
        None => Seq::empty(),
    }
}

/// `r` is the unified movie part of an AniList detail entry.
pub open spec fn movie_of_detail(r: MovieCore, m: AniListMediaDetail) -> bool {
    &&& r.provider_id@ == anilist_media_id(m.id)
    &&& r.title@ == preferred_title(m.title)
    &&& opt_view(r.original_title) == native_title(m.title)
    &&& r.overview == m.description
    &&& opt_view(r.release_date) == opt_date_text(m.start_date)
    &&& opt_view(r.poster_url) == preferred_cover(m.cover_image)
    &&& r.backdrop_url == m.banner_image
    &&& anilist_genres(r.genres@, m.genres)
    &&& r.vote_count == 0
    &&& opt_view(r.original_language) == origin_language(m.country_of_origin)
    &&& r.adult == (m.is_adult == Some(true))
}

/// `r` is the unified TV show part of an AniList detail entry.
pub open spec fn tv_of_detail(r: TvShowCore, m: AniListMediaDetail) -> bool {
    &&& r.provider_id@ == anilist_media_id(m.id)
    &&& r.name@ == preferred_title(m.title)
    &&& opt_view(r.original_name) == native_title(m.title)
    &&& r.overview == m.description
    &&& opt_view(r.first_air_date) == opt_date_text(m.start_date)
    &&& opt_view(r.poster_url) == preferred_cover(m.cover_image)
    &&& r.backdrop_url == m.banner_image
    &&& anilist_genres(r.genres@, m.genres)
    &&& r.vote_count == 0
    &&& opt_view(r.original_language) == origin_language(m.country_of_origin)
    &&& texts(r.origin_country@) == origin_countries(m.country_of_origin)
    &&& r.adult == (m.is_adult == Some(true))
}

/// `r` is the unified movie details of an AniList detail entry.
pub open spec fn movie_details_of_detail(r: MovieDetailsCore, m: AniListMediaDetail) -> bool {
    &&& movie_of_detail(r.movie, m)
    &&& r.tagline is None
    &&& r.runtime == (match m.duration { Some(d) => Some(non_negative(d)), None => None::<u32> })
    &&& r.budget is None
    &&& r.revenue is None
    &&& r.status == m.status
    &&& r.homepage is None
    &&& r.imdb_id is None
    &&& texts(r.production_companies@) == opt_studio_names(m.studios)
    &&& texts(r.production_countries@) == origin_countries(m.country_of_origin)
    &&& r.spoken_languages@.len() == 0
    &&& !r.video
    &&& r.belongs_to_collection is None
}

/// Whether an AniList status means the show is still being made or aired.
pub open spec fn anilist_in_production(status: Option<String>) -> bool {
    opt_view(status) == Some("RELEASING"@) || opt_view(status) == Some("NOT_YET_RELEASED"@)
}

/// `r` is the unified TV show details of an AniList detail entry. AniList has
/// no season count for anime, so there is always one season.
pub open spec fn tv_details_of_detail(r: TvShowDetailsCore, m: AniListMediaDetail) -> bool {
    &&& tv_of_detail(r.show, m)
    &&& r.tagline is None
    &&& r.number_of_seasons == 1
    &&& r.number_of_episodes == (match m.episodes { Some(e) => e, None => 0i32 }) as u32
    &&& r.in_production == anilist_in_production(m.status)
    &&& r.status == m.status
    &&& r.homepage is None
    &&& r.networks@.len() == 0
    &&& texts(r.production_companies@) == opt_studio_names(m.studios)
    &&& opt_view(r.last_air_date) == opt_date_text(m.end_date)
    &&& r.type_ == m.format
    &&& r.created_by@.len() == 0
    &&& r.episode_run_time@ == (match m.duration { Some(d) => seq![non_negative(d)], None => Seq::<u32>::empty() })
    &&& r.spoken_languages@.len() == 0
    &&& texts(r.production_countries@) == origin_countries(m.country_of_origin)
}

fn studio_list(s: &Option<AniListStudios>) -> (r: Vec<String>)
    ensures
        texts(r@) == opt_studio_names(*s),
{
    let mut out: Vec<String> = Vec::new();
    match s {
        Some(st) => {
            let nodes = &st.nodes;
            let mut i: usize = 0;
            while i < nodes.len()
                invariant
                    i <= nodes@.len(),
                    texts(out@) == studio_names(nodes@.take(i as int)),
                decreases nodes.len() - i,
            {
                let ghost before = out@;
                match &nodes[i].name {
                    Some(n) => {
                        out.push(n.clone());
                    },
                    None => {},
                }
                assert(nodes@.take(i + 1).drop_last() =~= nodes@.take(i as int));
                assert(texts(out@) =~= studio_names(nodes@.take(i + 1)));
                i = i + 1;
            }
            assert(nodes@.take(nodes@.len() as int) =~= nodes@);
        },
        None => {},
    }
    assert(texts(out@) =~= opt_studio_names(*s)) by {
        if s is None {
            assert(texts(out@) =~= Seq::<Seq<char>>::empty());
        }
    }
    out
}

fn non_negative_u32(v: i32) -> (r: u32)
    ensures
        r == non_negative(v),
{
    if v < 0 { 0 } else { v as u32 }
}

/// Convert an AniList media detail entry to unified movie details.
pub fn anilist_media_detail_to_movie_details(m: AniListMediaDetail) -> (r: MovieDetailsCore)
    ensures
        movie_details_of_detail(r, m),
{
    let production_companies = studio_list(&m.studios);
    let production_countries = countries_opt(&m.country_of_origin);
    MovieDetailsCore {
        movie: MovieCore {
            provider_id: media_id("anilist:", m.id),
            title: resolve_detail_title(&m),
            original_title: native_text(&m.title),
            overview: clone_opt(&m.description),
            release_date: date_opt(&m.start_date),
            poster_url: resolve_cover_detail(&m),
            backdrop_url: clone_opt(&m.banner_image),
            genres: map_genres(&m.genres),
            vote_count: 0,
            original_language: language_opt(&m.country_of_origin),
            adult: match m.is_adult { Some(b) => b, None => false },
        },
        tagline: None,
        runtime: match m.duration { Some(d) => Some(non_negative_u32(d)), None => None },
        budget: None,
        revenue: None,
        status: clone_opt(&m.status),
        homepage: None,
        imdb_id: None,
        production_companies,
        production_countries,
        spoken_languages: Vec::new(),
        video: false,
        belongs_to_collection: None,
    }
}

/// Convert an AniList media detail entry to unified TV show details.
pub fn anilist_media_detail_to_tv_details(m: AniListMediaDetail) -> (r: TvShowDetailsCore)
    ensures
        tv_details_of_detail(r, m),
{
    let production_companies = studio_list(&m.studios);
    let in_production = match &m.status {
        Some(st) => eq_text(st, "RELEASING") || eq_text(st, "NOT_YET_RELEASED"),
        None => false,
    };
    let mut episode_run_time: Vec<u32> = Vec::new();
    match m.duration {
        Some(d) => {
            episode_run_time.push(non_negative_u32(d));
        },
        None => {},
    }
    proof {
        assert(episode_run_time@ =~= (match m.duration { Some(d) => seq![non_negative(d)], None => Seq::<u32>::empty() }));
    }
    let episodes: i32 = match m.episodes { Some(e) => e, None => 0 };
    TvShowDetailsCore {
        show: TvShowCore {
            provider_id: media_id("anilist:", m.id),
            name: resolve_detail_title(&m),
            original_name: native_text(&m.title),
            overview: clone_opt(&m.description),
            first_air_date: date_opt(&m.start_date),
            poster_url: resolve_cover_detail(&m),
            backdrop_url: clone_opt(&m.banner_image),
            genres: map_genres(&m.genres),
            vote_count: 0,
            original_language: language_opt(&m.country_of_origin),
            origin_country: countries_opt(&m.country_of_origin),
            adult: match m.is_adult { Some(b) => b, None => false },
        },
        tagline: None,
        number_of_seasons: 1,
        number_of_episodes: #[verifier::truncate] (episodes as u32),
        in_production,
        status: clone_opt(&m.status),
        homepage: None,
        networks: Vec::new(),
        production_companies,
        last_air_date: date_opt(&m.end_date),
        type_: clone_opt(&m.format),
        created_by: Vec::new(),
        episode_run_time,
        spoken_languages: Vec::new(),
        production_countries: countries_opt(&m.country_of_origin),
    }
}

/// The department of an AniList occupation: voice actors and actresses to
/// "Voice Acting", directors to "Directing", music and composers to "Music",
/// animation directors and animators to "Animation", character design to
/// "Art" (all compared in lower case); any other occupation is kept as given.
pub open spec fn occupation_department(occupation: Seq<char>) -> Seq<char> {
    let l = lowercase(occupation);
    if l == "voice actor"@ || l == "voice actress"@ {
        "Voice Acting"@
    } else if l == "director"@ {
        "Directing"@
    } else if l == "music"@ || l == "composer"@ {
        "Music"@
    } else if l == "animation director"@ || l == "animator"@ {
        "Animation"@
    } else if l == "character design"@ {
        "Art"@
    } else {
        occupation
    }
}

/// Normalize an AniList primary occupation to a consistent department string.
pub fn normalize_occupation(occupation: &str) -> (r: String)
    ensures
        r@ == occupation_department(occupation@),
{
    let l = to_lowercase(occupation);
    if eq_text(&l, "voice actor") || eq_text(&l, "voice actress") {
        owned("Voice Acting")
    } else if eq_text(&l, "director") {
        owned("Directing")
    } else if eq_text(&l, "music") || eq_text(&l, "composer") {
        owned("Music")
    } else if eq_text(&l, "animation director") || eq_text(&l, "animator") {
        owned("Animation")
    } else if eq_text(&l, "character design") {
        owned("Art")
    } else {
        owned(occupation)
    }
}

/// The numeric code of an AniList gender: 1 female, 2 male, 3 non-binary,
/// 0 for anything else.
pub open spec fn gender_code(g: Seq<char>) -> u8 {
    if g == "Female"@ { 1 } else if g == "Male"@ { 2 } else if g == "Non-binary"@ { 3 } else { 0 }
}

/// Map an AniList gender string to a numeric code.
pub fn map_gender(g: &str) -> (r: u8)
    ensures
        r == gender_code(g@),
{
    let t = owned(g);
    if eq_text(&t, "Female") {
        1
    } else if eq_text(&t, "Male") {
        2
    } else if eq_text(&t, "Non-binary") {
        3
    } else {
        0
    }
}

/// The department of the first listed occupation, if any.
pub open spec fn first_department(occs: Option<Vec<String>>) -> Option<Seq<char>> {
    match occs {
        Some(v) => if v@.len() > 0 { Some(occupation_department(v@[0]@)) } else { None },
        None => None,
    }
}

/// The full name, or empty.
pub open spec fn full_name(n: Option<AniListStaffName>) -> Seq<char> {
    match n {
        Some(n) => match n.full { Some(f) => f@, None => Seq::empty() },
        None => Seq::empty(),
    }
}

/// The large image URL, if any.
pub open spec fn large_image(i: Option<AniListStaffImage>) -> Option<String> {
    match i {
        Some(i) => i.large,
        None => None,
    }
}

/// The other names of a staff member: the alternative names, then the native
/// one when there is one.
pub open spec fn other_names(n: Option<AniListStaffName>) -> Seq<Seq<char>> {
    match n {
        Some(n) => texts(n.alternative@) + match n.native {
            Some(x) => seq![x@],
            None => Seq::empty(),
        },
        None => Seq::empty(),
    }
}

/// `r` is the unified person of an AniList staff member.
pub open spec fn person_of_staff(r: PersonCore, s: AniListStaff) -> bool {
    &&& r.provider_id@ == anilist_staff_id(s.id)
    &&& r.name@ == full_name(s.name)
    &&& opt_view(r.known_for_department) == first_department(s.primary_occupations)
    &&& r.profile_url == large_image(s.image)
    &&& r.gender is None
    &&& !r.adult
}

/// `r` is the unified person details of an AniList staff detail entry.
pub open spec fn person_details_of_staff(r: PersonDetailsCore, s: AniListStaffDetail) -> bool {
    &&& r.person.provider_id@ == anilist_staff_id(s.id)
    &&& r.person.name@ == full_name(s.name)
    &&& opt_view(r.person.known_for_department) == first_department(s.primary_occupations)
    &&& r.person.profile_url == large_image(s.image)
    &&& r.person.gender == (match s.gender { Some(g) => Some(gender_code(g@) as i32), None => None::<i32> })
    &&& !r.person.adult
    &&& r.biography == s.description
    &&& opt_view(r.birthday) == opt_date_text(s.date_of_birth)
    &&& opt_view(r.deathday) == opt_date_text(s.date_of_death)
    &&& r.place_of_birth == s.home_town
    &&& r.imdb_id is None
    &&& r.homepage == s.site_url
    &&& texts(r.also_known_as@) == other_names(s.name)
}

fn department(occs: &Option<Vec<String>>) -> (r: Option<String>)
    ensures
        opt_view(r) == first_department(*occs),
{
    match occs {
        Some(v) => {
            if v.len() > 0 {
                Some(normalize_occupation(v[0].as_str()))
            } else {
                None
            }
        },
        None => None,
    }
}

fn name_text(n: &Option<AniListStaffName>) -> (r: String)
    ensures
        r@ == full_name(*n),
{
    match n {
        Some(n) => match &n.full {
            Some(f) => f.clone(),
            None => String::new(),
        },
        None => String::new(),
    }
}

fn image_url_of(i: &Option<AniListStaffImage>) -> (r: Option<String>)
    ensures
        r == large_image(*i),
{
    match i {
        Some(i) => clone_opt(&i.large),
        None => None,
    }
}

fn names_list(n: &Option<AniListStaffName>) -> (r: Vec<String>)
    ensures
        texts(r@) == other_names(*n),
{
    match n {
        Some(n) => {
            let mut names: Vec<String> = Vec::new();
            let mut i: usize = 0;
            while i < n.alternative.len()
                invariant
                    i <= n.alternative@.len(),
                    names@ == n.alternative@.take(i as int),
                decreases n.alternative.len() - i,
            {
                names.push(n.alternative[i].clone());
                i = i + 1;
                assert(names@ =~= n.alternative@.take(i as int));
            }
            assert(n.alternative@.take(n.alternative@.len() as int) =~= n.alternative@);
            match &n.native {
                Some(x) => {
                    names.push(x.clone());
                },
                None => {},
            }
            assert(texts(names@) =~= other_names(Some(*n)));
            names
        },
        None => {
            let v: Vec<String> = Vec::new();
            assert(texts(v@) =~= Seq::<Seq<char>>::empty());
            v
        },
    }
}

/// Convert an AniList staff member to a unified person.
pub fn staff_to_person(s: AniListStaff) -> (r: PersonCore)
    ensures
        person_of_staff(r, s),
{
    person_from_staff(&s)
}

/// The unified person of a borrowed AniList staff member.
pub fn person_from_staff(s: &AniListStaff) -> (r: PersonCore)
    ensures
        person_of_staff(r, *s),
{
    PersonCore {
        provider_id: media_id("anilist:staff:", s.id),
        name: name_text(&s.name),
        known_for_department: department(&s.primary_occupations),
        profile_url: image_url_of(&s.image),
        gender: None,
        adult: false,
    }
}

/// Convert an AniList staff detail entry to unified person details.
pub fn staff_detail_to_person_details(s: AniListStaffDetail) -> (r: PersonDetailsCore)
    ensures
        person_details_of_staff(r, s),
{
    let gender = match &s.gender {
        Some(g) => Some(map_gender(g.as_str()) as i32),
        None => None,
    };
    PersonDetailsCore {
        person: PersonCore {
            provider_id: media_id("anilist:staff:", s.id),
            name: name_text(&s.name),
            known_for_department: department(&s.primary_occupations),
            profile_url: image_url_of(&s.image),
            gender,
            adult: false,
        },
        biography: clone_opt(&s.description),
        birthday: date_opt(&s.date_of_birth),
        deathday: date_opt(&s.date_of_death),
        place_of_birth: clone_opt(&s.home_town),
        imdb_id: None,
        homepage: clone_opt(&s.site_url),
        also_known_as: names_list(&s.name),
    }
}

} // verus!
