//! What the provider conversions, the provider choice and the detail TTL
//! policy promise, stated directly over inputs and results.
use vstd::prelude::*;

use crate::anilist_convert::{
    gender_code, movie_of_media, language_of_country, movie_details_of_detail, occupation_department, tv_details_of_detail,
};
use crate::anilist_response::{AniListMedia, AniListMediaDetail};
use crate::cache_key::MediaType;
use crate::cache_ttl::CacheTtlConfig;
use crate::facade_plan::{detail_provider, list_provider, list_writes_ok, CacheWrite, FetchedItem, ListOp, Provider, Providers};
use crate::genre::{genre_name, known_anilist_genre, known_genre_name, known_tmdb_genre, Genre};
use crate::models::{MovieCore, MovieDetailsCore, SearchResultCore, TvShowDetailsCore};
use crate::text::lowercase;
use crate::tmdb_convert::{
    episode_of_tmdb, movie_details_of_tmdb, search_result_of_tmdb, TmdbMultiItem, tv_details_of_tmdb, EpisodeCore, TmdbEpisode, TmdbMovieDetails, TmdbTvDetails,
};

verus! {

/// TMDB TV show details keep their counts apart: the season count of the
/// response becomes `number_of_seasons` and its episode count becomes
/// `number_of_episodes`, each cut to `u32`.
pub proof fn tv_details_keep_season_and_episode_counts(t: TmdbTvDetails, r: TvShowDetailsCore)
    requires
        tv_details_of_tmdb(r, t),
    ensures
        r.number_of_seasons == t.number_of_seasons as u32,
        r.number_of_episodes == t.number_of_episodes as u32,
        r.in_production == t.in_production,
        r.status == t.status,
        r.last_air_date == t.last_air_date,
        r.show.first_air_date == t.first_air_date,
{
}

/// TMDB movie details keep runtime, budget and revenue apart: each positive
/// amount is carried from the field of the same name, and an amount of zero
/// or less is absent.
pub proof fn movie_details_keep_runtime_budget_and_revenue(m: TmdbMovieDetails, r: MovieDetailsCore)
    requires
        movie_details_of_tmdb(r, m),
    ensures
        m.runtime > 0 ==> r.runtime == Some(m.runtime as u32),
        m.runtime <= 0 ==> r.runtime is None,
        m.budget > 0 ==> r.budget == Some(m.budget as u64),
        m.budget <= 0 ==> r.budget is None,
        m.revenue > 0 ==> r.revenue == Some(m.revenue as u64),
        m.revenue <= 0 ==> r.revenue is None,
        r.status == m.status,
        r.homepage == m.homepage,
        r.imdb_id == m.imdb_id,
        r.tagline == m.tagline,
        r.movie.release_date == m.release_date,
{
}

/// A TMDB episode keeps its number and its runtime (a runtime of zero or less
/// is absent).
pub proof fn episodes_keep_number_and_runtime(e: TmdbEpisode, r: EpisodeCore)
    requires
        episode_of_tmdb(r, e),
    ensures
        r.episode_number == e.episode_number as u32,
        e.runtime > 0 ==> r.runtime == Some(e.runtime as u32),
        e.runtime <= 0 ==> r.runtime is None,
        r.air_date == e.air_date,
        r.name == e.name,
{
}

/// AniList TV details have one season and the entry's episode count (0 when
/// unknown, negative counts cut as `as u32` does).
pub proof fn anilist_shows_count_one_season(m: AniListMediaDetail, r: TvShowDetailsCore)
    requires
        tv_details_of_detail(r, m),
    ensures
        r.number_of_seasons == 1,
        m.episodes matches Some(e) ==> r.number_of_episodes == e as u32,
        m.episodes is None ==> r.number_of_episodes == 0,
        r.status == m.status,
{
}

/// AniList movie details take their runtime from the episode duration (a
/// negative duration counts as 0) and have no budget or revenue.
pub proof fn anilist_movie_runtime_is_duration(m: AniListMediaDetail, r: MovieDetailsCore)
    requires
        movie_details_of_detail(r, m),
    ensures
        m.duration matches Some(d) ==> (d >= 0 ==> r.runtime == Some(d as u32)),
        m.duration matches Some(d) ==> (d < 0 ==> r.runtime == Some(0u32)),
        m.duration is None ==> r.runtime is None,
        r.budget is None,
        r.revenue is None,
        r.status == m.status,
{
}

/// An AniList show is in production exactly when its status is `RELEASING`
/// or `NOT_YET_RELEASED`; a show that is `FINISHED`, `CANCELLED` or
/// `HIATUS`, or has no status, is not.
pub proof fn anilist_shows_in_production(m: AniListMediaDetail, r: TvShowDetailsCore)
    requires
        tv_details_of_detail(r, m),
    ensures
        m.status matches Some(s) && s@ == "RELEASING"@ ==> r.in_production,
        m.status matches Some(s) && s@ == "NOT_YET_RELEASED"@ ==> r.in_production,
        m.status matches Some(s) && s@ == "FINISHED"@ ==> !r.in_production,
        m.status matches Some(s) && s@ == "CANCELLED"@ ==> !r.in_production,
        m.status matches Some(s) && s@ == "HIATUS"@ ==> !r.in_production,
        m.status is None ==> !r.in_production,
{
    reveal_strlit("RELEASING");
    reveal_strlit("NOT_YET_RELEASED");
    reveal_strlit("FINISHED");
    reveal_strlit("CANCELLED");
    reveal_strlit("HIATUS");
    assert("FINISHED"@[0] != "RELEASING"@[0] && "FINISHED"@[0] != "NOT_YET_RELEASED"@[0]);
    assert("CANCELLED"@[0] != "RELEASING"@[0] && "CANCELLED"@[0] != "NOT_YET_RELEASED"@[0]);
    assert("HIATUS"@[0] != "RELEASING"@[0] && "HIATUS"@[0] != "NOT_YET_RELEASED"@[0]);
}

/// With TMDB configured, TMDB answers every listing. With AniList configured
/// and TMDB not, AniList answers every search and every discovery list
/// (trending, popular and top-rated movies and TV shows); only
/// recommendations and similar-title lists have no provider. With neither,
/// nothing answers.
pub proof fn listing_providers(op: ListOp, providers: Providers)
    ensures
        providers.tmdb ==> list_provider(op, providers) == Some(Provider::Tmdb),
        !providers.tmdb && providers.anilist && (
            op is SearchMovies || op is SearchTvShows || op is SearchPeople || op is SearchMulti
            || op is TrendingMovies || op is TrendingTvShows
            || op is PopularMovies || op is TopRatedMovies
            || op is PopularTvShows || op is TopRatedTvShows
        ) ==> list_provider(op, providers) == Some(Provider::AniList),
        !providers.tmdb && (
            op is MovieRecommendations || op is TvRecommendations
            || op is SimilarMovies || op is SimilarTvShows
        ) ==> list_provider(op, providers) is None,
        !providers.tmdb && !providers.anilist ==> list_provider(op, providers) is None,
{
}

/// Whether an age in days is known and at most `days`.
pub open spec fn aired_within(age: Option<i64>, days: int) -> bool {
    match age {
        Some(d) => d <= days,
        None => false,
    }
}

/// Whether an age in days is known and more than `days`.
pub open spec fn aired_before(age: Option<i64>, days: int) -> bool {
    match age {
        Some(d) => d > days,
        None => false,
    }
}

/// The TTL of a TV show detail entry: a show in production, or one that aired
/// within the last 90 days, gets the active-content TTL; otherwise an ended or
/// canceled show first aired before the old-content threshold gets the
/// old-content TTL; otherwise a returning, in-production or planned show, or
/// one first aired within the recent-content threshold, gets the
/// recent-content TTL; a show with no dates, no status and not in production
/// gets the fallback TTL.
pub proof fn tv_ttl_rules(
    cfg: CacheTtlConfig,
    first_air_age: Option<i64>,
    last_air_age: Option<i64>,
    status: Option<Seq<char>>,
)
    ensures
        cfg.tv_ttl(first_air_age, last_air_age, status, true) == cfg.active_content_details_ttl,
        aired_within(last_air_age, 90) ==>
            cfg.tv_ttl(first_air_age, last_air_age, status, false) == cfg.active_content_details_ttl,
        !aired_within(last_air_age, 90)
            && (status == Some("Ended"@) || status == Some("Canceled"@))
            && aired_before(first_air_age, cfg.old_content_threshold_days as int) ==>
            cfg.tv_ttl(first_air_age, last_air_age, status, false) == cfg.old_content_details_ttl,
        !aired_within(last_air_age, 90)
            && (status == Some("Returning Series"@) || status == Some("In Production"@) || status == Some("Planned"@)) ==>
            cfg.tv_ttl(first_air_age, last_air_age, status, false) == cfg.recent_content_details_ttl,
        cfg.tv_ttl(None, None, None, false) == cfg.details,
{
    reveal_strlit("Ended");
    reveal_strlit("Canceled");
    reveal_strlit("Returning Series");
    reveal_strlit("In Production");
    reveal_strlit("Planned");
    assert("Returning Series"@[0] != "Ended"@[0] && "Returning Series"@[0] != "Canceled"@[0]);
    assert("In Production"@[0] != "Ended"@[0] && "In Production"@[0] != "Canceled"@[0]);
    assert("Planned"@[0] != "Ended"@[0] && "Planned"@[0] != "Canceled"@[0]);
}

/// Details are answered by TMDB when it is configured, else by AniList when
/// it is configured, else by nobody.
pub proof fn detail_providers(providers: Providers)
    ensures
        providers.tmdb ==> detail_provider(providers) == Some(Provider::Tmdb),
        !providers.tmdb && providers.anilist ==> detail_provider(providers) == Some(Provider::AniList),
        !providers.tmdb && !providers.anilist ==> detail_provider(providers) is None,
{
}

/// AniList genders follow TMDB's codes: female 1, male 2, non-binary 3, and
/// 0 for anything else; distinct known genders get distinct codes.
pub proof fn gender_codes(g: Seq<char>)
    ensures
        g == "Female"@ ==> gender_code(g) == 1,
        g == "Male"@ ==> gender_code(g) == 2,
        g == "Non-binary"@ ==> gender_code(g) == 3,
        g != "Female"@ && g != "Male"@ && g != "Non-binary"@ ==> gender_code(g) == 0,
{
    reveal_strlit("Female");
    reveal_strlit("Male");
    reveal_strlit("Non-binary");
    assert("Male"@.len() != "Female"@.len());
    assert("Non-binary"@.len() != "Female"@.len() && "Non-binary"@.len() != "Male"@.len());
}

/// A country of origin gives its language: Japan Japanese, Korea Korean,
/// China and Taiwan Chinese; any other code is kept.
pub proof fn country_languages(c: Seq<char>)
    ensures
        c == "JP"@ ==> language_of_country(c) == "ja"@,
        c == "KR"@ ==> language_of_country(c) == "ko"@,
        c == "CN"@ ==> language_of_country(c) == "zh"@,
        c == "TW"@ ==> language_of_country(c) == "zh"@,
        c != "JP"@ && c != "KR"@ && c != "CN"@ && c != "TW"@ ==> language_of_country(c) == c,
{
    reveal_strlit("JP");
    reveal_strlit("KR");
    reveal_strlit("CN");
    reveal_strlit("TW");
    assert("KR"@[0] != "JP"@[0] && "KR"@[0] != "CN"@[0]);
    assert("TW"@[0] != "JP"@[0] && "TW"@[0] != "CN"@[0] && "TW"@[0] != "KR"@[0]);
}

/// An AniList occupation is filed under its department, whatever its case:
/// voice actors and actresses under Voice Acting, directors under Directing,
/// music and composers under Music, animation directors and animators under
/// Animation, character design under Art.
pub proof fn occupations_are_filed_by_department(o: Seq<char>)
    ensures
        lowercase(o) == "voice actor"@ || lowercase(o) == "voice actress"@ ==>
            occupation_department(o) == "Voice Acting"@,
        lowercase(o) == "director"@ ==> occupation_department(o) == "Directing"@,
        lowercase(o) == "music"@ || lowercase(o) == "composer"@ ==> occupation_department(o) == "Music"@,
        lowercase(o) == "animation director"@ || lowercase(o) == "animator"@ ==>
            occupation_department(o) == "Animation"@,
        lowercase(o) == "character design"@ ==> occupation_department(o) == "Art"@,
{
    reveal_strlit("voice actor");
    reveal_strlit("voice actress");
    reveal_strlit("director");
    reveal_strlit("music");
    reveal_strlit("composer");
    reveal_strlit("animation director");
    reveal_strlit("animator");
    reveal_strlit("character design");
    assert("director"@[0] != "voice actor"@[0] && "director"@[0] != "voice actress"@[0]);
    assert("music"@[0] != "voice actor"@[0] && "music"@[0] != "voice actress"@[0] && "music"@[0] != "director"@[0]);
    assert("composer"@[0] != "voice actor"@[0] && "composer"@[0] != "voice actress"@[0] && "composer"@[0] != "director"@[0]);
    assert("animation director"@[0] != "voice actor"@[0] && "animation director"@[0] != "voice actress"@[0]
        && "animation director"@[0] != "director"@[0] && "animation director"@[0] != "music"@[0]
        && "animation director"@[0] != "composer"@[0]);
    assert("animator"@[0] != "voice actor"@[0] && "animator"@[0] != "voice actress"@[0]
        && "animator"@[0] != "director"@[0] && "animator"@[0] != "music"@[0] && "animator"@[0] != "composer"@[0]);
    assert("character design"@[0] != "voice actor"@[0] && "character design"@[0] != "voice actress"@[0]
        && "character design"@[0] != "director"@[0] && "character design"@[0] != "music"@[0]
        && "character design"@[0] != "animation director"@[0] && "character design"@[0] != "animator"@[0]);
    assert("character design"@.len() != "composer"@.len());
}

/// A movie that is not out yet (status `In Production`, `Post Production`,
/// `Planned` or `Rumored`) is cached with the recent-content TTL, whatever
/// the age of its release date.
pub proof fn unreleased_movies_use_recent_ttl(cfg: CacheTtlConfig, release_age: Option<i64>, status: Seq<char>)
    requires
        status == "In Production"@ || status == "Post Production"@
            || status == "Planned"@ || status == "Rumored"@,
    ensures
        cfg.movie_ttl(release_age, Some(status)) == cfg.recent_content_details_ttl,
{
    reveal_strlit("Released");
    reveal_strlit("In Production");
    reveal_strlit("Post Production");
    reveal_strlit("Planned");
    reveal_strlit("Rumored");
    assert("Released"@.len() != status.len());
}

/// A released movie whose release date is more than the old-content threshold
/// in the past is cached with the old-content TTL; one released within the
/// recent-content threshold (and not old) with the recent-content TTL; a
/// movie with neither a status nor a release date with the fallback TTL.
pub proof fn movie_ttl_by_age(cfg: CacheTtlConfig, age: i64)
    ensures
        age > cfg.old_content_threshold_days ==>
            cfg.movie_ttl(Some(age), Some("Released"@)) == cfg.old_content_details_ttl,
        age <= cfg.recent_content_threshold_days && age <= cfg.old_content_threshold_days ==>
            cfg.movie_ttl(Some(age), Some("Released"@)) == cfg.recent_content_details_ttl,
        cfg.movie_ttl(None, None) == cfg.details,
{
}

/// The official TMDB genre ID of each genre, by TMDB's own name for it.
pub proof fn tmdb_genre_ids_name_their_genres(id: i64, g: Genre)
    requires
        match known_tmdb_genre(id as int) {
            Some(k) => g == k,
            None => g is Other,
        },
    ensures
        id == 28 ==> genre_name(g) == "Action"@,
        id == 12 ==> genre_name(g) == "Adventure"@,
        id == 16 ==> genre_name(g) == "Animation"@,
        id == 35 ==> genre_name(g) == "Comedy"@,
        id == 80 ==> genre_name(g) == "Crime"@,
        id == 99 ==> genre_name(g) == "Documentary"@,
        id == 18 ==> genre_name(g) == "Drama"@,
        id == 10751 ==> genre_name(g) == "Family"@,
        id == 14 ==> genre_name(g) == "Fantasy"@,
        id == 36 ==> genre_name(g) == "History"@,
        id == 27 ==> genre_name(g) == "Horror"@,
        id == 10402 ==> genre_name(g) == "Music"@,
        id == 9648 ==> genre_name(g) == "Mystery"@,
        id == 10749 ==> genre_name(g) == "Romance"@,
        id == 878 ==> genre_name(g) == "Science Fiction"@,
        id == 10770 ==> genre_name(g) == "TV Movie"@,
        id == 53 ==> genre_name(g) == "Thriller"@,
        id == 10752 ==> genre_name(g) == "War"@,
        id == 37 ==> genre_name(g) == "Western"@,
        id == 10759 ==> genre_name(g) == "Action & Adventure"@,
        id == 10762 ==> genre_name(g) == "Kids"@,
        id == 10763 ==> genre_name(g) == "News"@,
        id == 10764 ==> genre_name(g) == "Reality"@,
        id == 10765 ==> genre_name(g) == "Sci-Fi & Fantasy"@,
        id == 10766 ==> genre_name(g) == "Soap"@,
        id == 10767 ==> genre_name(g) == "Talk"@,
        id == 10768 ==> genre_name(g) == "War & Politics"@,
{
}

/// Distinct official TMDB genre IDs give distinct genres.
pub proof fn distinct_tmdb_genre_ids_give_distinct_genres(a: i64, b: i64)
    requires
        known_tmdb_genre(a as int) is Some,
        known_tmdb_genre(b as int) is Some,
        a != b,
    ensures
        known_tmdb_genre(a as int) != known_tmdb_genre(b as int),
{
}

/// A TMDB multi-search item becomes a movie when its media type is `movie`, a
/// TV show when it is `tv`, and a person when it is `person`. A movie takes
/// its title from `title` (else `name`), a TV show and a person from `name`
/// (else `title`).
pub proof fn multi_search_items_by_media_type(it: TmdbMultiItem, r: SearchResultCore)
    requires
        search_result_of_tmdb(r, it),
    ensures
        it.media_type matches Some(t) && t@ == "movie"@ ==> r is Movie,
        it.media_type matches Some(t) && t@ == "tv"@ ==> r is TvShow,
        it.media_type matches Some(t) && t@ == "person"@ ==> r is Person,
        r matches SearchResultCore::Movie(m) ==> (it.title matches Some(x) ==> m.title@ == x@),
        r matches SearchResultCore::TvShow(tv) ==> (it.name matches Some(x) ==> tv.name@ == x@),
        r matches SearchResultCore::Person(p) ==> (it.name matches Some(x) ==> p.name@ == x@),
{
    reveal_strlit("movie");
    reveal_strlit("tv");
    reveal_strlit("person");
    assert("person"@.len() != "movie"@.len() && "person"@.len() != "tv"@.len());
}

/// An AniList entry is titled by its English title, else its romanized one;
/// its original title is the native one.
pub proof fn anilist_titles_prefer_english(m: AniListMedia, r: MovieCore)
    requires
        movie_of_media(r, m),
    ensures
        m.title matches Some(t) ==> (t.english matches Some(e) ==> r.title@ == e@),
        m.title matches Some(t) ==> (t.english is None ==> (t.romaji matches Some(x) ==> r.title@ == x@)),
        m.title matches Some(t) ==> (t.native matches Some(x) ==> r.original_title matches Some(o) && o@ == x@),
        m.title is None ==> r.title@.len() == 0,
{
}

/// The cache writes of a fetched listing page: the page is kept for the
/// search TTL when it is a search and for the discovery TTL otherwise; each
/// item is kept for the item TTL under an item key, as a movie for movie
/// listings, a TV show for TV listings, a person for people searches, and as
/// its own kind for multi-searches.
pub proof fn listing_write_ttls_and_kinds(
    writes: Seq<CacheWrite>,
    op: ListOp,
    page: u32,
    items: Seq<FetchedItem>,
    ttl: CacheTtlConfig,
    i: int,
)
    requires
        list_writes_ok(writes, op, page, items, ttl),
        0 <= i < items.len(),
    ensures
        op is SearchMovies || op is SearchTvShows || op is SearchPeople || op is SearchMulti ==>
            writes[0].ttl == ttl.search,
        !(op is SearchMovies || op is SearchTvShows || op is SearchPeople || op is SearchMulti) ==>
            writes[0].ttl == ttl.discovery,
        writes[i + 1].ttl == ttl.items,
        writes[i + 1].key is Item,
        op is SearchMovies || op is TrendingMovies || op is PopularMovies || op is TopRatedMovies
            || op is MovieRecommendations || op is SimilarMovies ==>
            writes[i + 1].key->Item_media_type == MediaType::Movie,
        op is SearchTvShows || op is TrendingTvShows || op is PopularTvShows || op is TopRatedTvShows
            || op is TvRecommendations || op is SimilarTvShows ==>
            writes[i + 1].key->Item_media_type == MediaType::TvShow,
        op is SearchPeople ==> writes[i + 1].key->Item_media_type == MediaType::Person,
        op is SearchMulti ==> writes[i + 1].key->Item_media_type == items[i].kind,
        writes[i + 1].key->Item_provider_id@ == items[i].provider_id@,
{
    assert(writes[i + 1].key is Item);
}

/// AniList genre names map to the genre of the same name, as a lookup by
/// name finds it; AniList's "sci-fi" is Science Fiction.
#[verifier::rlimit(60)]
#[verifier::spinoff_prover]
pub proof fn anilist_genres_agree_with_genre_names(l: Seq<char>)
    ensures
        known_anilist_genre(l) is Some && l != "sci-fi"@ ==> known_anilist_genre(l) == known_genre_name(l),
        l == "sci-fi"@ ==> known_anilist_genre(l) == Some(Genre::ScienceFiction),
{
    reveal_strlit("action");
    reveal_strlit("action & adventure");
    reveal_strlit("adventure");
    reveal_strlit("animation");
    reveal_strlit("comedy");
    reveal_strlit("crime");
    reveal_strlit("documentary");
    reveal_strlit("drama");
    reveal_strlit("ecchi");
    reveal_strlit("family");
    reveal_strlit("fantasy");
    reveal_strlit("history");
    reveal_strlit("horror");
    reveal_strlit("kids");
    reveal_strlit("mahou shoujo");
    reveal_strlit("mecha");
    reveal_strlit("music");
    reveal_strlit("mystery");
    reveal_strlit("news");
    reveal_strlit("reality");
    reveal_strlit("romance");
    reveal_strlit("sci-fi");
    reveal_strlit("sci-fi & fantasy");
    reveal_strlit("science fiction");
    reveal_strlit("slice of life");
    reveal_strlit("soap");
    reveal_strlit("sports");
    reveal_strlit("supernatural");
    reveal_strlit("talk");
    reveal_strlit("thriller");
    reveal_strlit("tv movie");
    reveal_strlit("war");
    reveal_strlit("war & politics");
    reveal_strlit("western");
    if l == "action"@ {
    } else if l == "adventure"@ {
        assert("adventure"@.len() != "action"@.len()
            && "adventure"@.len() != "action"@.len());
    } else if l == "comedy"@ {
        assert("comedy"@[0] != "action"@[0]
            && "comedy"@.len() != "adventure"@.len()
            && "comedy"@[0] != "action"@[0]
            && "comedy"@.len() != "adventure"@.len()
            && "comedy"@.len() != "fantasy"@.len()
            && "comedy"@.len() != "history"@.len()
            && "comedy"@[0] != "horror"@[0]
            && "comedy"@.len() != "music"@.len()
            && "comedy"@.len() != "romance"@.len()
            && "comedy"@.len() != "science fiction"@.len()
            && "comedy"@.len() != "thriller"@.len()
            && "comedy"@.len() != "tv movie"@.len()
            && "comedy"@.len() != "war"@.len()
            && "comedy"@.len() != "action & adventure"@.len()
            && "comedy"@.len() != "kids"@.len()
            && "comedy"@.len() != "news"@.len()
            && "comedy"@.len() != "reality"@.len()
            && "comedy"@.len() != "sci-fi & fantasy"@.len()
            && "comedy"@.len() != "soap"@.len()
            && "comedy"@.len() != "talk"@.len()
            && "comedy"@.len() != "war & politics"@.len()
            && "comedy"@.len() != "animation"@.len());
    } else if l == "drama"@ {
        assert("drama"@.len() != "action"@.len()
            && "drama"@.len() != "adventure"@.len()
            && "drama"@.len() != "comedy"@.len()
            && "drama"@.len() != "action"@.len()
            && "drama"@.len() != "adventure"@.len()
            && "drama"@.len() != "fantasy"@.len()
            && "drama"@.len() != "history"@.len()
            && "drama"@.len() != "horror"@.len()
            && "drama"@[0] != "music"@[0]
            && "drama"@.len() != "romance"@.len()
            && "drama"@.len() != "science fiction"@.len()
            && "drama"@.len() != "thriller"@.len()
            && "drama"@.len() != "tv movie"@.len()
            && "drama"@.len() != "war"@.len()
            && "drama"@.len() != "action & adventure"@.len()
            && "drama"@.len() != "kids"@.len()
            && "drama"@.len() != "news"@.len()
            && "drama"@.len() != "reality"@.len()
            && "drama"@.len() != "sci-fi & fantasy"@.len()
            && "drama"@.len() != "soap"@.len()
            && "drama"@.len() != "talk"@.len()
            && "drama"@.len() != "war & politics"@.len()
            && "drama"@.len() != "animation"@.len()
            && "drama"@.len() != "comedy"@.len()
            && "drama"@[0] != "crime"@[0]
            && "drama"@.len() != "documentary"@.len());
    } else if l == "ecchi"@ {
        assert("ecchi"@.len() != "action"@.len()
            && "ecchi"@.len() != "adventure"@.len()
            && "ecchi"@.len() != "comedy"@.len()
            && "ecchi"@[0] != "drama"@[0]
            && "ecchi"@.len() != "action"@.len()
            && "ecchi"@.len() != "adventure"@.len()
            && "ecchi"@.len() != "fantasy"@.len()
            && "ecchi"@.len() != "history"@.len()
            && "ecchi"@.len() != "horror"@.len()
            && "ecchi"@[0] != "music"@[0]
            && "ecchi"@.len() != "romance"@.len()
            && "ecchi"@.len() != "science fiction"@.len()
            && "ecchi"@.len() != "thriller"@.len()
            && "ecchi"@.len() != "tv movie"@.len()
            && "ecchi"@.len() != "war"@.len()
            && "ecchi"@.len() != "action & adventure"@.len()
            && "ecchi"@.len() != "kids"@.len()
            && "ecchi"@.len() != "news"@.len()
            && "ecchi"@.len() != "reality"@.len()
            && "ecchi"@.len() != "sci-fi & fantasy"@.len()
            && "ecchi"@.len() != "soap"@.len()
            && "ecchi"@.len() != "talk"@.len()
            && "ecchi"@.len() != "war & politics"@.len()
            && "ecchi"@.len() != "animation"@.len()
            && "ecchi"@.len() != "comedy"@.len()
            && "ecchi"@[0] != "crime"@[0]
            && "ecchi"@.len() != "documentary"@.len()
            && "ecchi"@[0] != "drama"@[0]
            && "ecchi"@.len() != "family"@.len()
            && "ecchi"@.len() != "mystery"@.len()
            && "ecchi"@.len() != "western"@.len()
            && "ecchi"@[0] != "mecha"@[0]
            && "ecchi"@.len() != "mahou shoujo"@.len()
            && "ecchi"@.len() != "slice of life"@.len()
            && "ecchi"@.len() != "sports"@.len()
            && "ecchi"@.len() != "supernatural"@.len());
    } else if l == "fantasy"@ {
        assert("fantasy"@.len() != "action"@.len()
            && "fantasy"@.len() != "adventure"@.len()
            && "fantasy"@.len() != "comedy"@.len()
            && "fantasy"@.len() != "drama"@.len()
            && "fantasy"@.len() != "ecchi"@.len()
            && "fantasy"@.len() != "action"@.len()
            && "fantasy"@.len() != "adventure"@.len());
    } else if l == "horror"@ {
        assert("horror"@[0] != "action"@[0]
            && "horror"@.len() != "adventure"@.len()
            && "horror"@[0] != "comedy"@[0]
            && "horror"@.len() != "drama"@.len()
            && "horror"@.len() != "ecchi"@.len()
            && "horror"@.len() != "fantasy"@.len()
            && "horror"@[0] != "action"@[0]
            && "horror"@.len() != "adventure"@.len()
            && "horror"@.len() != "fantasy"@.len()
            && "horror"@.len() != "history"@.len());
    } else if l == "mahou shoujo"@ {
        assert("mahou shoujo"@.len() != "action"@.len()
            && "mahou shoujo"@.len() != "adventure"@.len()
            && "mahou shoujo"@.len() != "comedy"@.len()
            && "mahou shoujo"@.len() != "drama"@.len()
            && "mahou shoujo"@.len() != "ecchi"@.len()
            && "mahou shoujo"@.len() != "fantasy"@.len()
            && "mahou shoujo"@.len() != "horror"@.len()
            && "mahou shoujo"@.len() != "action"@.len()
            && "mahou shoujo"@.len() != "adventure"@.len()
            && "mahou shoujo"@.len() != "fantasy"@.len()
            && "mahou shoujo"@.len() != "history"@.len()
            && "mahou shoujo"@.len() != "horror"@.len()
            && "mahou shoujo"@.len() != "music"@.len()
            && "mahou shoujo"@.len() != "romance"@.len()
            && "mahou shoujo"@.len() != "science fiction"@.len()
            && "mahou shoujo"@.len() != "thriller"@.len()
            && "mahou shoujo"@.len() != "tv movie"@.len()
            && "mahou shoujo"@.len() != "war"@.len()
            && "mahou shoujo"@.len() != "action & adventure"@.len()
            && "mahou shoujo"@.len() != "kids"@.len()
            && "mahou shoujo"@.len() != "news"@.len()
            && "mahou shoujo"@.len() != "reality"@.len()
            && "mahou shoujo"@.len() != "sci-fi & fantasy"@.len()
            && "mahou shoujo"@.len() != "soap"@.len()
            && "mahou shoujo"@.len() != "talk"@.len()
            && "mahou shoujo"@.len() != "war & politics"@.len()
            && "mahou shoujo"@.len() != "animation"@.len()
            && "mahou shoujo"@.len() != "comedy"@.len()
            && "mahou shoujo"@.len() != "crime"@.len()
            && "mahou shoujo"@.len() != "documentary"@.len()
            && "mahou shoujo"@.len() != "drama"@.len()
            && "mahou shoujo"@.len() != "family"@.len()
            && "mahou shoujo"@.len() != "mystery"@.len()
            && "mahou shoujo"@.len() != "western"@.len()
            && "mahou shoujo"@.len() != "mecha"@.len());
    } else if l == "mecha"@ {
        assert("mecha"@.len() != "action"@.len()
            && "mecha"@.len() != "adventure"@.len()
            && "mecha"@.len() != "comedy"@.len()
            && "mecha"@[0] != "drama"@[0]
            && "mecha"@[0] != "ecchi"@[0]
            && "mecha"@.len() != "fantasy"@.len()
            && "mecha"@.len() != "horror"@.len()
            && "mecha"@.len() != "mahou shoujo"@.len()
            && "mecha"@.len() != "action"@.len()
            && "mecha"@.len() != "adventure"@.len()
            && "mecha"@.len() != "fantasy"@.len()
            && "mecha"@.len() != "history"@.len()
            && "mecha"@.len() != "horror"@.len()
            && "mecha"@[1] != "music"@[1]
            && "mecha"@.len() != "romance"@.len()
            && "mecha"@.len() != "science fiction"@.len()
            && "mecha"@.len() != "thriller"@.len()
            && "mecha"@.len() != "tv movie"@.len()
            && "mecha"@.len() != "war"@.len()
            && "mecha"@.len() != "action & adventure"@.len()
            && "mecha"@.len() != "kids"@.len()
            && "mecha"@.len() != "news"@.len()
            && "mecha"@.len() != "reality"@.len()
            && "mecha"@.len() != "sci-fi & fantasy"@.len()
            && "mecha"@.len() != "soap"@.len()
            && "mecha"@.len() != "talk"@.len()
            && "mecha"@.len() != "war & politics"@.len()
            && "mecha"@.len() != "animation"@.len()
            && "mecha"@.len() != "comedy"@.len()
            && "mecha"@[0] != "crime"@[0]
            && "mecha"@.len() != "documentary"@.len()
            && "mecha"@[0] != "drama"@[0]
            && "mecha"@.len() != "family"@.len()
            && "mecha"@.len() != "mystery"@.len()
            && "mecha"@.len() != "western"@.len());
    } else if l == "music"@ {
        assert("music"@.len() != "action"@.len()
            && "music"@.len() != "adventure"@.len()
            && "music"@.len() != "comedy"@.len()
            && "music"@[0] != "drama"@[0]
            && "music"@[0] != "ecchi"@[0]
            && "music"@.len() != "fantasy"@.len()
            && "music"@.len() != "horror"@.len()
            && "music"@.len() != "mahou shoujo"@.len()
            && "music"@[1] != "mecha"@[1]
            && "music"@.len() != "action"@.len()
            && "music"@.len() != "adventure"@.len()
            && "music"@.len() != "fantasy"@.len()
            && "music"@.len() != "history"@.len()
            && "music"@.len() != "horror"@.len());
    } else if l == "mystery"@ {
        assert("mystery"@.len() != "action"@.len()
            && "mystery"@.len() != "adventure"@.len()
            && "mystery"@.len() != "comedy"@.len()
            && "mystery"@.len() != "drama"@.len()
            && "mystery"@.len() != "ecchi"@.len()
            && "mystery"@[0] != "fantasy"@[0]
            && "mystery"@.len() != "horror"@.len()
            && "mystery"@.len() != "mahou shoujo"@.len()
            && "mystery"@.len() != "mecha"@.len()
            && "mystery"@.len() != "music"@.len()
            && "mystery"@.len() != "action"@.len()
            && "mystery"@.len() != "adventure"@.len()
            && "mystery"@[0] != "fantasy"@[0]
            && "mystery"@[0] != "history"@[0]
            && "mystery"@.len() != "horror"@.len()
            && "mystery"@.len() != "music"@.len()
            && "mystery"@[0] != "romance"@[0]
            && "mystery"@.len() != "science fiction"@.len()
            && "mystery"@.len() != "thriller"@.len()
            && "mystery"@.len() != "tv movie"@.len()
            && "mystery"@.len() != "war"@.len()
            && "mystery"@.len() != "action & adventure"@.len()
            && "mystery"@.len() != "kids"@.len()
            && "mystery"@.len() != "news"@.len()
            && "mystery"@[0] != "reality"@[0]
            && "mystery"@.len() != "sci-fi & fantasy"@.len()
            && "mystery"@.len() != "soap"@.len()
            && "mystery"@.len() != "talk"@.len()
            && "mystery"@.len() != "war & politics"@.len()
            && "mystery"@.len() != "animation"@.len()
            && "mystery"@.len() != "comedy"@.len()
            && "mystery"@.len() != "crime"@.len()
            && "mystery"@.len() != "documentary"@.len()
            && "mystery"@.len() != "drama"@.len()
            && "mystery"@.len() != "family"@.len());
    } else if l == "romance"@ {
        assert("romance"@.len() != "action"@.len()
            && "romance"@.len() != "adventure"@.len()
            && "romance"@.len() != "comedy"@.len()
            && "romance"@.len() != "drama"@.len()
            && "romance"@.len() != "ecchi"@.len()
            && "romance"@[0] != "fantasy"@[0]
            && "romance"@.len() != "horror"@.len()
            && "romance"@.len() != "mahou shoujo"@.len()
            && "romance"@.len() != "mecha"@.len()
            && "romance"@.len() != "music"@.len()
            && "romance"@[0] != "mystery"@[0]
            && "romance"@.len() != "action"@.len()
            && "romance"@.len() != "adventure"@.len()
            && "romance"@[0] != "fantasy"@[0]
            && "romance"@[0] != "history"@[0]
            && "romance"@.len() != "horror"@.len()
            && "romance"@.len() != "music"@.len());
    } else if l == "sci-fi"@ {
        assert("sci-fi"@[0] != "action"@[0]
            && "sci-fi"@.len() != "adventure"@.len()
            && "sci-fi"@[0] != "comedy"@[0]
            && "sci-fi"@.len() != "drama"@.len()
            && "sci-fi"@.len() != "ecchi"@.len()
            && "sci-fi"@.len() != "fantasy"@.len()
            && "sci-fi"@[0] != "horror"@[0]
            && "sci-fi"@.len() != "mahou shoujo"@.len()
            && "sci-fi"@.len() != "mecha"@.len()
            && "sci-fi"@.len() != "music"@.len()
            && "sci-fi"@.len() != "mystery"@.len()
            && "sci-fi"@.len() != "romance"@.len());
    } else if l == "slice of life"@ {
        assert("slice of life"@.len() != "action"@.len()
            && "slice of life"@.len() != "adventure"@.len()
            && "slice of life"@.len() != "comedy"@.len()
            && "slice of life"@.len() != "drama"@.len()
            && "slice of life"@.len() != "ecchi"@.len()
            && "slice of life"@.len() != "fantasy"@.len()
            && "slice of life"@.len() != "horror"@.len()
            && "slice of life"@.len() != "mahou shoujo"@.len()
            && "slice of life"@.len() != "mecha"@.len()
            && "slice of life"@.len() != "music"@.len()
            && "slice of life"@.len() != "mystery"@.len()
            && "slice of life"@.len() != "romance"@.len()
            && "slice of life"@.len() != "sci-fi"@.len()
            && "slice of life"@.len() != "action"@.len()
            && "slice of life"@.len() != "adventure"@.len()
            && "slice of life"@.len() != "fantasy"@.len()
            && "slice of life"@.len() != "history"@.len()
            && "slice of life"@.len() != "horror"@.len()
            && "slice of life"@.len() != "music"@.len()
            && "slice of life"@.len() != "romance"@.len()
            && "slice of life"@.len() != "science fiction"@.len()
            && "slice of life"@.len() != "thriller"@.len()
            && "slice of life"@.len() != "tv movie"@.len()
            && "slice of life"@.len() != "war"@.len()
            && "slice of life"@.len() != "action & adventure"@.len()
            && "slice of life"@.len() != "kids"@.len()
            && "slice of life"@.len() != "news"@.len()
            && "slice of life"@.len() != "reality"@.len()
            && "slice of life"@.len() != "sci-fi & fantasy"@.len()
            && "slice of life"@.len() != "soap"@.len()
            && "slice of life"@.len() != "talk"@.len()
            && "slice of life"@.len() != "war & politics"@.len()
            && "slice of life"@.len() != "animation"@.len()
            && "slice of life"@.len() != "comedy"@.len()
            && "slice of life"@.len() != "crime"@.len()
            && "slice of life"@.len() != "documentary"@.len()
            && "slice of life"@.len() != "drama"@.len()
            && "slice of life"@.len() != "family"@.len()
            && "slice of life"@.len() != "mystery"@.len()
            && "slice of life"@.len() != "western"@.len()
            && "slice of life"@.len() != "mecha"@.len()
            && "slice of life"@.len() != "mahou shoujo"@.len());
    } else if l == "sports"@ {
        assert("sports"@[0] != "action"@[0]
            && "sports"@.len() != "adventure"@.len()
            && "sports"@[0] != "comedy"@[0]
            && "sports"@.len() != "drama"@.len()
            && "sports"@.len() != "ecchi"@.len()
            && "sports"@.len() != "fantasy"@.len()
            && "sports"@[0] != "horror"@[0]
            && "sports"@.len() != "mahou shoujo"@.len()
            && "sports"@.len() != "mecha"@.len()
            && "sports"@.len() != "music"@.len()
            && "sports"@.len() != "mystery"@.len()
            && "sports"@.len() != "romance"@.len()
            && "sports"@[1] != "sci-fi"@[1]
            && "sports"@.len() != "slice of life"@.len()
            && "sports"@[0] != "action"@[0]
            && "sports"@.len() != "adventure"@.len()
            && "sports"@.len() != "fantasy"@.len()
            && "sports"@.len() != "history"@.len()
            && "sports"@[0] != "horror"@[0]
            && "sports"@.len() != "music"@.len()
            && "sports"@.len() != "romance"@.len()
            && "sports"@.len() != "science fiction"@.len()
            && "sports"@.len() != "thriller"@.len()
            && "sports"@.len() != "tv movie"@.len()
            && "sports"@.len() != "war"@.len()
            && "sports"@.len() != "action & adventure"@.len()
            && "sports"@.len() != "kids"@.len()
            && "sports"@.len() != "news"@.len()
            && "sports"@.len() != "reality"@.len()
            && "sports"@.len() != "sci-fi & fantasy"@.len()
            && "sports"@.len() != "soap"@.len()
            && "sports"@.len() != "talk"@.len()
            && "sports"@.len() != "war & politics"@.len()
            && "sports"@.len() != "animation"@.len()
            && "sports"@[0] != "comedy"@[0]
            && "sports"@.len() != "crime"@.len()
            && "sports"@.len() != "documentary"@.len()
            && "sports"@.len() != "drama"@.len()
            && "sports"@[0] != "family"@[0]
            && "sports"@.len() != "mystery"@.len()
            && "sports"@.len() != "western"@.len()
            && "sports"@.len() != "mecha"@.len()
            && "sports"@.len() != "mahou shoujo"@.len()
            && "sports"@.len() != "slice of life"@.len());
    } else if l == "supernatural"@ {
        assert("supernatural"@.len() != "action"@.len()
            && "supernatural"@.len() != "adventure"@.len()
            && "supernatural"@.len() != "comedy"@.len()
            && "supernatural"@.len() != "drama"@.len()
            && "supernatural"@.len() != "ecchi"@.len()
            && "supernatural"@.len() != "fantasy"@.len()
            && "supernatural"@.len() != "horror"@.len()
            && "supernatural"@[0] != "mahou shoujo"@[0]
            && "supernatural"@.len() != "mecha"@.len()
            && "supernatural"@.len() != "music"@.len()
            && "supernatural"@.len() != "mystery"@.len()
            && "supernatural"@.len() != "romance"@.len()
            && "supernatural"@.len() != "sci-fi"@.len()
            && "supernatural"@.len() != "slice of life"@.len()
            && "supernatural"@.len() != "sports"@.len()
            && "supernatural"@.len() != "action"@.len()
            && "supernatural"@.len() != "adventure"@.len()
            && "supernatural"@.len() != "fantasy"@.len()
            && "supernatural"@.len() != "history"@.len()
            && "supernatural"@.len() != "horror"@.len()
            && "supernatural"@.len() != "music"@.len()
            && "supernatural"@.len() != "romance"@.len()
            && "supernatural"@.len() != "science fiction"@.len()
            && "supernatural"@.len() != "thriller"@.len()
            && "supernatural"@.len() != "tv movie"@.len()
            && "supernatural"@.len() != "war"@.len()
            && "supernatural"@.len() != "action & adventure"@.len()
            && "supernatural"@.len() != "kids"@.len()
            && "supernatural"@.len() != "news"@.len()
            && "supernatural"@.len() != "reality"@.len()
            && "supernatural"@.len() != "sci-fi & fantasy"@.len()
            && "supernatural"@.len() != "soap"@.len()
            && "supernatural"@.len() != "talk"@.len()
            && "supernatural"@.len() != "war & politics"@.len()
            && "supernatural"@.len() != "animation"@.len()
            && "supernatural"@.len() != "comedy"@.len()
            && "supernatural"@.len() != "crime"@.len()
            && "supernatural"@.len() != "documentary"@.len()
            && "supernatural"@.len() != "drama"@.len()
            && "supernatural"@.len() != "family"@.len()
            && "supernatural"@.len() != "mystery"@.len()
            && "supernatural"@.len() != "western"@.len()
            && "supernatural"@.len() != "mecha"@.len()
            && "supernatural"@[0] != "mahou shoujo"@[0]
            && "supernatural"@.len() != "slice of life"@.len()
            && "supernatural"@.len() != "sports"@.len());
    } else if l == "thriller"@ {
        assert("thriller"@.len() != "action"@.len()
            && "thriller"@.len() != "adventure"@.len()
            && "thriller"@.len() != "comedy"@.len()
            && "thriller"@.len() != "drama"@.len()
            && "thriller"@.len() != "ecchi"@.len()
            && "thriller"@.len() != "fantasy"@.len()
            && "thriller"@.len() != "horror"@.len()
            && "thriller"@.len() != "mahou shoujo"@.len()
            && "thriller"@.len() != "mecha"@.len()
            && "thriller"@.len() != "music"@.len()
            && "thriller"@.len() != "mystery"@.len()
            && "thriller"@.len() != "romance"@.len()
            && "thriller"@.len() != "sci-fi"@.len()
            && "thriller"@.len() != "slice of life"@.len()
            && "thriller"@.len() != "sports"@.len()
            && "thriller"@.len() != "supernatural"@.len()
            && "thriller"@.len() != "action"@.len()
            && "thriller"@.len() != "adventure"@.len()
            && "thriller"@.len() != "fantasy"@.len()
            && "thriller"@.len() != "history"@.len()
            && "thriller"@.len() != "horror"@.len()
            && "thriller"@.len() != "music"@.len()
            && "thriller"@.len() != "romance"@.len()
            && "thriller"@.len() != "science fiction"@.len());
    }
}

} // verus!
