//! The TMDB requests that the client sends: the endpoint path and the query
//! parameters of each operation, with the defaults taken from the client
//! configuration.
use vstd::prelude::*;
use vstd::string::StringExecFns;

use crate::facade_plan::{DetailKind, ListOp};
use crate::text::{owned, push_signed_decimal, signed_decimal};
use crate::time_window::{time_window_str, time_window_text};
use crate::tmdb_config::TmdbConfig;

verus! {

/// A GET request to the TMDB API: its path and its query parameters.
#[derive(Debug, Clone)]
pub struct TmdbRequest {
    /// The path below the base URL, e.g. `/3/search/movie`.
    pub path: String,
    /// The query parameters, as name and value.
    pub query: Vec<(String, String)>,
}

/// The query parameters as texts.
pub open spec fn params_view(q: Seq<(String, String)>) -> Seq<(Seq<char>, Seq<char>)> {
    q.map_values(|p: (String, String)| (p.0@, p.1@))
}

/// A parameter that is sent only when it has a value.
pub open spec fn opt_param(name: Seq<char>, v: Option<String>) -> Seq<(Seq<char>, Seq<char>)> {
    match v {
        Some(s) => seq![(name, s@)],
        None => Seq::empty(),
    }
}

/// The text of a boolean parameter.
pub open spec fn bool_text(b: bool) -> Seq<char> {
    if b { "true"@ } else { "false"@ }
}

/// The `include_adult` parameter, sent when configured.
pub open spec fn adult_param(a: Option<bool>) -> Seq<(Seq<char>, Seq<char>)> {
    match a {
        Some(b) => seq![("include_adult"@, bool_text(b))],
        None => Seq::empty(),
    }
}

/// The `page` parameter, sent when a page is asked for, as the signed 32-bit
/// number that `as i32` makes of it.
pub open spec fn page_param(page: Option<u32>) -> Seq<(Seq<char>, Seq<char>)> {
    match page {
        Some(p) => seq![("page"@, signed_decimal((p as i32) as int))],
        None => Seq::empty(),
    }
}

/// The `language` parameter of the configuration.
pub open spec fn language_param(cfg: TmdbConfig) -> Seq<(Seq<char>, Seq<char>)> {
    opt_param("language"@, cfg.language)
}

/// The `region` parameter of the configuration.
pub open spec fn region_param(cfg: TmdbConfig) -> Seq<(Seq<char>, Seq<char>)> {
    opt_param("region"@, cfg.region)
}

/// The endpoint path of a listing.
pub open spec fn list_path(op: ListOp) -> Seq<char> {
    match op {
        ListOp::SearchMovies(_) => "/3/search/movie"@,
        ListOp::SearchTvShows(_) => "/3/search/tv"@,
        ListOp::SearchPeople(_) => "/3/search/person"@,
        ListOp::SearchMulti(_) => "/3/search/multi"@,
        ListOp::TrendingMovies(tw) => "/3/trending/movie/"@ + time_window_text(tw),
        ListOp::TrendingTvShows(tw) => "/3/trending/tv/"@ + time_window_text(tw),
        ListOp::PopularMovies => "/3/movie/popular"@,
        ListOp::TopRatedMovies => "/3/movie/top_rated"@,
        ListOp::PopularTvShows => "/3/tv/popular"@,
        ListOp::TopRatedTvShows => "/3/tv/top_rated"@,
        ListOp::MovieRecommendations(id) => "/3/movie/"@ + signed_decimal(id as int) + "/recommendations"@,
        ListOp::TvRecommendations(id) => "/3/tv/"@ + signed_decimal(id as int) + "/recommendations"@,
        ListOp::SimilarMovies(id) => "/3/movie/"@ + signed_decimal(id as int) + "/similar"@,
        ListOp::SimilarTvShows(id) => "/3/tv/"@ + signed_decimal(id as int) + "/similar"@,
    }
}

/// The query parameters of a listing: movie searches send the query, the
/// adult flag, the language, the page and the region; the other searches all
/// but the region; trending lists only the language (they take no page);
/// popular and top-rated movies the language, the page and the region;
/// popular and top-rated shows, recommendations and similar titles the
/// language and the page.
pub open spec fn list_params(cfg: TmdbConfig, op: ListOp, page: Option<u32>) -> Seq<(Seq<char>, Seq<char>)> {
    match op {
        ListOp::SearchMovies(q) => seq![("query"@, q@)] + adult_param(cfg.include_adult) + language_param(cfg)
            + page_param(page) + region_param(cfg),
        ListOp::SearchTvShows(q) => seq![("query"@, q@)] + adult_param(cfg.include_adult) + language_param(cfg)
            + page_param(page),
        ListOp::SearchPeople(q) => seq![("query"@, q@)] + adult_param(cfg.include_adult) + language_param(cfg)
            + page_param(page),
        ListOp::SearchMulti(q) => seq![("query"@, q@)] + adult_param(cfg.include_adult) + language_param(cfg)
            + page_param(page),
        ListOp::TrendingMovies(_) | ListOp::TrendingTvShows(_) => language_param(cfg),
        ListOp::PopularMovies | ListOp::TopRatedMovies => language_param(cfg) + page_param(page) + region_param(cfg),
        _ => language_param(cfg) + page_param(page),
    }
}

fn push_param(v: &mut Vec<(String, String)>, name: &str, value: String)
    ensures
        params_view(final(v)@) == params_view(old(v)@).push((name@, value@)),
{
    v.push((owned(name), value));
    assert(params_view(v@) =~= params_view(old(v)@).push((name@, value@)));
}

fn push_opt_param(v: &mut Vec<(String, String)>, name: &str, value: &Option<String>)
    ensures
        params_view(final(v)@) == params_view(old(v)@) + opt_param(name@, *value),
{
    match value {
        Some(s) => push_param(v, name, s.clone()),
        None => {
            assert(params_view(v@) =~= params_view(old(v)@) + opt_param(name@, *value));
        },
    }
}

fn push_adult_param(v: &mut Vec<(String, String)>, adult: Option<bool>)
    ensures
        params_view(final(v)@) == params_view(old(v)@) + adult_param(adult),
{
    match adult {
        Some(b) => push_param(v, "include_adult", if b { owned("true") } else { owned("false") }),
        None => {
            assert(params_view(v@) =~= params_view(old(v)@) + adult_param(adult));
        },
    }
}

fn push_page_param(v: &mut Vec<(String, String)>, page: Option<u32>)
    ensures
        params_view(final(v)@) == params_view(old(v)@) + page_param(page),
{
    match page {
        Some(p) => {
            let n: i32 = #[verifier::truncate] (p as i32);
            let mut text = String::new();
            push_signed_decimal(&mut text, n as i64);
            push_param(v, "page", text);
        },
        None => {
            assert(params_view(v@) =~= params_view(old(v)@) + page_param(page));
        },
    }
}

fn path_with_id(prefix: &str, id: i32, suffix: &str) -> (r: String)
    ensures
        r@ == prefix@ + signed_decimal(id as int) + suffix@,
{
    let mut s = owned(prefix);
    push_signed_decimal(&mut s, id as i64);
    s.append(suffix);
    s
}

fn list_path_of(op: &ListOp) -> (r: String)
    ensures
        r@ == list_path(*op),
{
    match op {
        ListOp::SearchMovies(_) => owned("/3/search/movie"),
        ListOp::SearchTvShows(_) => owned("/3/search/tv"),
        ListOp::SearchPeople(_) => owned("/3/search/person"),
        ListOp::SearchMulti(_) => owned("/3/search/multi"),
        ListOp::TrendingMovies(tw) => {
            let mut s = owned("/3/trending/movie/");
            s.append(time_window_str(*tw));
            s
        },
        ListOp::TrendingTvShows(tw) => {
            let mut s = owned("/3/trending/tv/");
            s.append(time_window_str(*tw));
            s
        },
        ListOp::PopularMovies => owned("/3/movie/popular"),
        ListOp::TopRatedMovies => owned("/3/movie/top_rated"),
        ListOp::PopularTvShows => owned("/3/tv/popular"),
        ListOp::TopRatedTvShows => owned("/3/tv/top_rated"),
        ListOp::MovieRecommendations(id) => path_with_id("/3/movie/", *id, "/recommendations"),
        ListOp::TvRecommendations(id) => path_with_id("/3/tv/", *id, "/recommendations"),
        ListOp::SimilarMovies(id) => path_with_id("/3/movie/", *id, "/similar"),
        ListOp::SimilarTvShows(id) => path_with_id("/3/tv/", *id, "/similar"),
    }
}

/// The request for a page of a listing.
pub fn tmdb_list_request(cfg: &TmdbConfig, op: &ListOp, page: Option<u32>) -> (r: TmdbRequest)
    ensures
        r.path@ == list_path(*op),
        params_view(r.query@) == list_params(*cfg, *op, page),
{
    let path = list_path_of(op);
    let mut q: Vec<(String, String)> = Vec::new();
    assert(params_view(q@) =~= Seq::<(Seq<char>, Seq<char>)>::empty());
    match op {
        ListOp::SearchMovies(text) | ListOp::SearchTvShows(text) | ListOp::SearchPeople(text) | ListOp::SearchMulti(text) => {
            push_param(&mut q, "query", text.clone());
            push_adult_param(&mut q, cfg.include_adult);
            push_opt_param(&mut q, "language", &cfg.language);
            push_page_param(&mut q, page);
            match op {
                ListOp::SearchMovies(_) => push_opt_param(&mut q, "region", &cfg.region),
                _ => {},
            }
        },
        ListOp::TrendingMovies(_) | ListOp::TrendingTvShows(_) => {
            push_opt_param(&mut q, "language", &cfg.language);
        },
        ListOp::PopularMovies | ListOp::TopRatedMovies => {
            push_opt_param(&mut q, "language", &cfg.language);
            push_page_param(&mut q, page);
            push_opt_param(&mut q, "region", &cfg.region);
        },
        _ => {
            push_opt_param(&mut q, "language", &cfg.language);
            push_page_param(&mut q, page);
        },
    }
    proof {
        reveal_strlit("query");
        reveal_strlit("language");
        reveal_strlit("region");
        reveal_strlit("include_adult");
        reveal_strlit("page");
        assert(params_view(q@) =~= list_params(*cfg, *op, page));
    }
    TmdbRequest { path, query: q }
}

/// The endpoint path of the details of a movie, TV show or person.
pub open spec fn detail_path(kind: DetailKind, id: i32) -> Seq<char> {
    match kind {
        DetailKind::Movie => "/3/movie/"@ + signed_decimal(id as int),
        DetailKind::TvShow => "/3/tv/"@ + signed_decimal(id as int),
        DetailKind::Person => "/3/person/"@ + signed_decimal(id as int),
    }
}

/// The request for the details of a movie, TV show or person: its path and
/// the configured language.
pub fn tmdb_detail_request(cfg: &TmdbConfig, kind: DetailKind, id: i32) -> (r: TmdbRequest)
    ensures
        r.path@ == detail_path(kind, id),
        params_view(r.query@) == language_param(*cfg),
{
    let prefix = match kind {
        DetailKind::Movie => "/3/movie/",
        DetailKind::TvShow => "/3/tv/",
        DetailKind::Person => "/3/person/",
    };
    let path = path_with_id(prefix, id, "");
    let mut q: Vec<(String, String)> = Vec::new();
    push_opt_param(&mut q, "language", &cfg.language);
    proof {
        reveal_strlit("");
        reveal_strlit("language");
        assert(path@ =~= detail_path(kind, id));
        assert(params_view(q@) =~= language_param(*cfg));
    }
    TmdbRequest { path, query: q }
}

/// The endpoint path of a season of a TV show, the season number sent as the
/// signed 32-bit number that `as i32` makes of it.
pub open spec fn season_path(series_id: i32, season: u32) -> Seq<char> {
    "/3/tv/"@ + signed_decimal(series_id as int) + "/season/"@ + signed_decimal((season as i32) as int)
}

/// The endpoint path of an episode of a TV show.
pub open spec fn episode_path(series_id: i32, season: u32, episode: u32) -> Seq<char> {
    season_path(series_id, season) + "/episode/"@ + signed_decimal((episode as i32) as int)
}

/// The request for a season of a TV show: its path and the configured language.
pub fn tmdb_season_request(cfg: &TmdbConfig, series_id: i32, season: u32) -> (r: TmdbRequest)
    ensures
        r.path@ == season_path(series_id, season),
        params_view(r.query@) == language_param(*cfg),
{
    let mut path = path_with_id("/3/tv/", series_id, "/season/");
    let n: i32 = #[verifier::truncate] (season as i32);
    push_signed_decimal(&mut path, n as i64);
    let mut q: Vec<(String, String)> = Vec::new();
    push_opt_param(&mut q, "language", &cfg.language);
    proof {
        reveal_strlit("language");
        assert(params_view(q@) =~= language_param(*cfg));
    }
    TmdbRequest { path, query: q }
}

/// The request for an episode of a TV show: its path and the configured
/// language.
pub fn tmdb_episode_request(cfg: &TmdbConfig, series_id: i32, season: u32, episode: u32) -> (r: TmdbRequest)
    ensures
        r.path@ == episode_path(series_id, season, episode),
        params_view(r.query@) == language_param(*cfg),
{
    let season_req = tmdb_season_request(cfg, series_id, season);
    let mut path = season_req.path;
    path.append("/episode/");
    let n: i32 = #[verifier::truncate] (episode as i32);
    push_signed_decimal(&mut path, n as i64);
    TmdbRequest { path, query: season_req.query }
}

/// The endpoint path of where a movie (or, with `tv`, a TV show) can be watched.
pub open spec fn watch_providers_path(tv: bool, id: i32) -> Seq<char> {
    (if tv { "/3/tv/"@ } else { "/3/movie/"@ }) + signed_decimal(id as int) + "/watch/providers"@
}

/// The request for where a movie (or, with `tv`, a TV show) can be watched:
/// its path and no parameters.
pub fn tmdb_watch_providers_request(tv: bool, id: i32) -> (r: TmdbRequest)
    ensures
        r.path@ == watch_providers_path(tv, id),
        r.query@.len() == 0,
{
    let path = path_with_id(if tv { "/3/tv/" } else { "/3/movie/" }, id, "/watch/providers");
    TmdbRequest { path, query: Vec::new() }
}

} // verus!
