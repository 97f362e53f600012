//! The AniList client's requests and the handling of its responses. The HTTP
//! exchange itself is performed by the application layer.
use vstd::prelude::*;

use crate::anilist_config::AniListConfig;
use crate::anilist_convert::{
    movie_from_media, movie_of_media, person_from_staff, person_of_staff,
    search_result_from_media, tv_from_media, tv_of_media,
};
use crate::anilist_response::{
    AniListGqlError, AniListMedia, GraphQlResponse, MediaPageResponse, PageInfo,
    StaffPageResponse,
};
use crate::models::{MovieCore, PersonCore, SearchResultCore, TvShowCore};
use crate::pagination::PaginatedResponse;
use crate::text::owned;
use crate::time_window::TimeWindow;

verus! {

/// The error type of `reqwest`, carried through opaquely.
#[verifier::external_type_specification]
#[verifier::external_body]
pub struct ExReqwestError(reqwest::Error);

/// Error type for the AniList provider.
#[derive(Debug)]
pub enum AniListError {
    /// HTTP transport error.
    Http(reqwest::Error),
    /// One or more GraphQL errors returned by AniList.
    GraphQL(Vec<AniListGqlError>),
    /// The API returned a successful response but no `data` field.
    NoData,
    /// The requested resource was not found: AniList answered with an error
    /// whose status is 404.
    NotFound,
}

/// The GraphQL documents that the client sends.
#[derive(Debug, Clone, Copy, PartialEq, Eq, Structural)]
pub enum GraphQlQuery {
    /// Search anime with an optional format filter.
    SearchAnime,
    /// List trending anime.
    ListTrendingAnime,
    /// List popular anime.
    ListPopularAnime,
    /// List top-scored anime.
    ListTopScoredAnime,
    /// Full details of one anime.
    MediaDetails,
    /// Search staff by name.
    SearchStaff,
    /// Full details of one staff member.
    StaffDetails,
}

/// The `formatIn` variable of a request.
#[derive(Debug, Clone)]
pub enum FormatFilter {
    /// The variable is not sent.
    Omitted,
    /// The variable is sent as `null`: any format.
    Any,
    /// Only the listed formats.
    Only(Vec<String>),
}

/// A GraphQL request: the document and its variables.
#[derive(Debug, Clone)]
pub struct AniListRequest {
    /// The document.
    pub query: GraphQlQuery,
    /// The `query` variable (search text), when sent.
    pub search: Option<String>,
    /// The `id` variable, when sent.
    pub id: Option<i32>,
    /// The `page` variable, when sent.
    pub page: Option<i64>,
    /// The `perPage` variable, when sent.
    pub per_page: Option<i64>,
    /// The `formatIn` variable.
    pub format_in: FormatFilter,
}

/// The AniList formats that count as movies.
pub open spec fn movie_formats() -> Seq<Seq<char>> {
    seq!["MOVIE"@]
}

/// The AniList formats that count as TV shows.
pub open spec fn tv_formats() -> Seq<Seq<char>> {
    seq!["TV"@, "TV_SHORT"@, "ONA"@, "OVA"@, "SPECIAL"@]
}

/// The texts of a list of strings.
pub open spec fn string_texts(v: Seq<String>) -> Seq<Seq<char>> {
    v.map_values(|s: String| s@)
}

/// Whether a filter holds exactly the given formats.
pub open spec fn filter_is(f: FormatFilter, formats: Seq<Seq<char>>) -> bool {
    f matches FormatFilter::Only(v) && string_texts(v@) == formats
}

/// The format filter for movies.
pub fn movie_format_filter() -> (f: FormatFilter)
    ensures
        filter_is(f, movie_formats()),
{
    let mut v: Vec<String> = Vec::new();
    v.push(owned("MOVIE"));
    assert(string_texts(v@) =~= movie_formats());
    FormatFilter::Only(v)
}

/// The format filter for TV shows (TV, TV_SHORT, ONA, OVA and SPECIAL).
pub fn tv_format_filter() -> (f: FormatFilter)
    ensures
        filter_is(f, tv_formats()),
{
    let mut v: Vec<String> = Vec::new();
    v.push(owned("TV"));
    v.push(owned("TV_SHORT"));
    v.push(owned("ONA"));
    v.push(owned("OVA"));
    v.push(owned("SPECIAL"));
    assert(string_texts(v@) =~= tv_formats());
    FormatFilter::Only(v)
}

/// The page variables: the page (1 when none is asked for) and the page size.
pub fn page_vars(page: Option<u32>, per_page: u32) -> (r: (i64, i64))
    ensures
        r.0 == (match page { Some(p) => p as i64, None => 1i64 }),
        r.1 == per_page as i64,
{
    let p: u32 = match page { Some(p) => p, None => 1 };
    (p as i64, per_page as i64)
}

/// `r` is a paged request for `query` on the given page with the configured
/// page size.
pub open spec fn paged_request(r: AniListRequest, query: GraphQlQuery, cfg: AniListConfig, page: Option<u32>) -> bool {
    &&& r.query == query
    &&& r.id is None
    &&& r.page == Some(match page { Some(p) => p as i64, None => 1i64 })
    &&& r.per_page == Some(cfg.per_page as i64)
}

fn paged(query: GraphQlQuery, search: Option<String>, cfg: &AniListConfig, page: Option<u32>, format_in: FormatFilter) -> (r: AniListRequest)
    ensures
        paged_request(r, query, *cfg, page),
        r.search == search,
        r.format_in == format_in,
{
    let (p, pp) = page_vars(page, cfg.per_page);
    AniListRequest { query, search, id: None, page: Some(p), per_page: Some(pp), format_in }
}

/// The request that searches anime movies by title.
pub fn search_movies_request(cfg: &AniListConfig, query: &str, page: Option<u32>) -> (r: AniListRequest)
    ensures
        paged_request(r, GraphQlQuery::SearchAnime, *cfg, page),
        r.search matches Some(q) && q@ == query@,
        filter_is(r.format_in, movie_formats()),
{
    paged(GraphQlQuery::SearchAnime, Some(owned(query)), cfg, page, movie_format_filter())
}

/// The request that searches anime series (TV, OVA, ONA, Special) by title.
pub fn search_tv_shows_request(cfg: &AniListConfig, query: &str, page: Option<u32>) -> (r: AniListRequest)
    ensures
        paged_request(r, GraphQlQuery::SearchAnime, *cfg, page),
        r.search matches Some(q) && q@ == query@,
        filter_is(r.format_in, tv_formats()),
{
    paged(GraphQlQuery::SearchAnime, Some(owned(query)), cfg, page, tv_format_filter())
}

/// The request that searches staff by name.
pub fn search_people_request(cfg: &AniListConfig, query: &str, page: Option<u32>) -> (r: AniListRequest)
    ensures
        paged_request(r, GraphQlQuery::SearchStaff, *cfg, page),
        r.search matches Some(q) && q@ == query@,
        r.format_in is Omitted,
{
    paged(GraphQlQuery::SearchStaff, Some(owned(query)), cfg, page, FormatFilter::Omitted)
}

/// The request that searches anime of every format.
pub fn search_multi_request(cfg: &AniListConfig, query: &str, page: Option<u32>) -> (r: AniListRequest)
    ensures
        paged_request(r, GraphQlQuery::SearchAnime, *cfg, page),
        r.search matches Some(q) && q@ == query@,
        r.format_in is Any,
{
    paged(GraphQlQuery::SearchAnime, Some(owned(query)), cfg, page, FormatFilter::Any)
}

/// The request for one anime's details.
pub fn media_details_request(id: i32) -> (r: AniListRequest)
    ensures
        r.query == GraphQlQuery::MediaDetails,
        r.id == Some(id),
        r.search is None && r.page is None && r.per_page is None,
        r.format_in is Omitted,
{
    AniListRequest { query: GraphQlQuery::MediaDetails, search: None, id: Some(id), page: None, per_page: None, format_in: FormatFilter::Omitted }
}

/// The request for one staff member's details.
pub fn staff_details_request(id: i32) -> (r: AniListRequest)
    ensures
        r.query == GraphQlQuery::StaffDetails,
        r.id == Some(id),
        r.search is None && r.page is None && r.per_page is None,
        r.format_in is Omitted,
{
    AniListRequest { query: GraphQlQuery::StaffDetails, search: None, id: Some(id), page: None, per_page: None, format_in: FormatFilter::Omitted }
}

/// The request for trending anime movies. AniList has no time window, so the
/// window does not change the request.
pub fn trending_movies_request(cfg: &AniListConfig, time_window: TimeWindow, page: Option<u32>) -> (r: AniListRequest)
    ensures
        paged_request(r, GraphQlQuery::ListTrendingAnime, *cfg, page),
        r.search is None,
        filter_is(r.format_in, movie_formats()),
{
    paged(GraphQlQuery::ListTrendingAnime, None, cfg, page, movie_format_filter())
}

/// The request for trending anime series. AniList has no time window.
pub fn trending_tv_request(cfg: &AniListConfig, time_window: TimeWindow, page: Option<u32>) -> (r: AniListRequest)
    ensures
        paged_request(r, GraphQlQuery::ListTrendingAnime, *cfg, page),
        r.search is None,
        filter_is(r.format_in, tv_formats()),
{
    paged(GraphQlQuery::ListTrendingAnime, None, cfg, page, tv_format_filter())
}

/// The request for popular anime movies.
pub fn popular_movies_request(cfg: &AniListConfig, page: Option<u32>) -> (r: AniListRequest)
    ensures
        paged_request(r, GraphQlQuery::ListPopularAnime, *cfg, page),
        r.search is None,
        filter_is(r.format_in, movie_formats()),
{
    paged(GraphQlQuery::ListPopularAnime, None, cfg, page, movie_format_filter())
}

/// The request for top-scored anime movies.
pub fn top_rated_movies_request(cfg: &AniListConfig, page: Option<u32>) -> (r: AniListRequest)
    ensures
        paged_request(r, GraphQlQuery::ListTopScoredAnime, *cfg, page),
        r.search is None,
        filter_is(r.format_in, movie_formats()),
{
    paged(GraphQlQuery::ListTopScoredAnime, None, cfg, page, movie_format_filter())
}

/// The request for popular anime series.
pub fn popular_tv_shows_request(cfg: &AniListConfig, page: Option<u32>) -> (r: AniListRequest)
    ensures
        paged_request(r, GraphQlQuery::ListPopularAnime, *cfg, page),
        r.search is None,
        filter_is(r.format_in, tv_formats()),
{
    paged(GraphQlQuery::ListPopularAnime, None, cfg, page, tv_format_filter())
}

/// The request for top-scored anime series.
pub fn top_rated_tv_shows_request(cfg: &AniListConfig, page: Option<u32>) -> (r: AniListRequest)
    ensures
        paged_request(r, GraphQlQuery::ListTopScoredAnime, *cfg, page),
        r.search is None,
        filter_is(r.format_in, tv_formats()),
{
    paged(GraphQlQuery::ListTopScoredAnime, None, cfg, page, tv_format_filter())
}

/// Whether one of the errors is AniList's answer for an entry that does not
/// exist: an error with status 404.
pub open spec fn reports_not_found(es: Seq<AniListGqlError>) -> bool {
    exists|i: int| 0 <= i < es.len() && (#[trigger] es[i]).status == Some(404i32)
}

/// The outcome of a GraphQL response: when there are errors, `NotFound` if
/// one of them reports a missing entry and the errors themselves otherwise;
/// without errors the data, else `NoData`.
pub open spec fn graphql_outcome_ok<T>(resp: GraphQlResponse<T>, r: Result<T, AniListError>) -> bool {
    match resp.errors {
        Some(es) if es@.len() > 0 => if reports_not_found(es@) {
            r matches Err(AniListError::NotFound)
        } else {
            r matches Err(AniListError::GraphQL(v)) && v@ == es@
        },
        _ => match resp.data {
            Some(d) => r == Ok::<T, AniListError>(d),
            None => r matches Err(AniListError::NoData),
        },
    }
}

/// Take the `data` of a GraphQL response: an error list that reports a
/// missing entry (status 404) is returned as [`AniListError::NotFound`],
/// any other non-empty error list as [`AniListError::GraphQL`], a missing
/// `data` as [`AniListError::NoData`].
pub fn graphql_data<T>(resp: GraphQlResponse<T>) -> (r: Result<T, AniListError>)
    ensures
        graphql_outcome_ok(resp, r),
{
    match resp.errors {
        Some(errors) => {
            if errors.len() > 0 {
                let mut i: usize = 0;
                while i < errors.len()
                    invariant
                        i <= errors@.len(),
                        errors@.len() > 0,
                        resp.errors == Some(errors),
                        forall|k: int| 0 <= k < i ==> (#[trigger] errors@[k]).status != Some(404i32),
                    decreases errors.len() - i,
                {
                    let found = match errors[i].status {
                        Some(code) => code == 404,
                        None => false,
                    };
                    if found {
                        assert(errors@[i as int].status == Some(404i32));
                        return Err(AniListError::NotFound);
                    }
                    i = i + 1;
                }
                return Err(AniListError::GraphQL(errors));
            }
        },
        None => {},
    }
    match resp.data {
        Some(d) => Ok(d),
        None => Err(AniListError::NoData),
    }
}

/// The page number, page count and result count of AniList page info: the
/// current page (1 when absent), the last page (1 when absent) and the total
/// (0 when absent), each turned into `u32` as `as u32` does.
pub open spec fn page_numbers(pi: PageInfo) -> (u32, u32, u32) {
    (
        (match pi.current_page { Some(p) => p, None => 1i32 }) as u32,
        (match pi.last_page { Some(p) => p, None => 1i32 }) as u32,
        (match pi.total { Some(t) => t, None => 0i32 }) as u32,
    )
}

/// Whether a page carries the numbers of the given page info.
pub open spec fn numbered_like<T>(r: PaginatedResponse<T>, pi: PageInfo) -> bool {
    (r.page, r.total_pages, r.total_results) == page_numbers(pi)
}

fn numbers(pi: &PageInfo) -> (r: (u32, u32, u32))
    ensures
        r == page_numbers(*pi),
{
    let p: i32 = match pi.current_page { Some(p) => p, None => 1 };
    let l: i32 = match pi.last_page { Some(p) => p, None => 1 };
    let t: i32 = match pi.total { Some(t) => t, None => 0 };
    (#[verifier::truncate] (p as u32), #[verifier::truncate] (l as u32), #[verifier::truncate] (t as u32))
}

/// Convert a media page to a page of movies; a response without a `Page`
/// gives [`AniListError::NoData`].
pub fn media_page_to_movies(resp: MediaPageResponse) -> (r: Result<PaginatedResponse<MovieCore>, AniListError>)
    ensures
        match resp.page {
            Some(pd) => r matches Ok(pr) && numbered_like(pr, pd.page_info)
                && pr.results@.len() == pd.media@.len()
                && forall|i: int| 0 <= i < pd.media@.len() ==> movie_of_media(#[trigger] pr.results@[i], pd.media@[i]),
            None => r matches Err(AniListError::NoData),
        },
{
    match resp.page {
        Some(pd) => {
            let (page, total_pages, total_results) = numbers(&pd.page_info);
            let media = &pd.media;
            let mut results: Vec<MovieCore> = Vec::new();
            let mut i: usize = 0;
            while i < media.len()
                invariant
                    i <= media@.len(),
                    results@.len() == i,
                    forall|k: int| 0 <= k < i ==> movie_of_media(#[trigger] results@[k], media@[k]),
                decreases media.len() - i,
            {
                results.push(movie_from_media(&media[i]));
                i = i + 1;
            }
            Ok(PaginatedResponse { page, results, total_pages, total_results })
        },
        None => Err(AniListError::NoData),
    }
}

/// Convert a media page to a page of TV shows; a response without a `Page`
/// gives [`AniListError::NoData`].
pub fn media_page_to_tv(resp: MediaPageResponse) -> (r: Result<PaginatedResponse<TvShowCore>, AniListError>)
    ensures
        match resp.page {
            Some(pd) => r matches Ok(pr) && numbered_like(pr, pd.page_info)
                && pr.results@.len() == pd.media@.len()
                && forall|i: int| 0 <= i < pd.media@.len() ==> tv_of_media(#[trigger] pr.results@[i], pd.media@[i]),
            None => r matches Err(AniListError::NoData),
        },
{
    match resp.page {
        Some(pd) => {
            let (page, total_pages, total_results) = numbers(&pd.page_info);
            let media = &pd.media;
            let mut results: Vec<TvShowCore> = Vec::new();
            let mut i: usize = 0;
            while i < media.len()
                invariant
                    i <= media@.len(),
                    results@.len() == i,
                    forall|k: int| 0 <= k < i ==> tv_of_media(#[trigger] results@[k], media@[k]),
                decreases media.len() - i,
            {
                results.push(tv_from_media(&media[i]));
                i = i + 1;
            }
            Ok(PaginatedResponse { page, results, total_pages, total_results })
        },
        None => Err(AniListError::NoData),
    }
}

/// The search result of one media entry: a movie for format `MOVIE`, a TV show
/// otherwise.
pub open spec fn search_result_of_media(r: SearchResultCore, m: AniListMedia) -> bool {
    if crate::anilist_response::opt_view(m.format) == Some("MOVIE"@) {
        r matches SearchResultCore::Movie(x) && movie_of_media(x, m)
    } else {
        r matches SearchResultCore::TvShow(x) && tv_of_media(x, m)
    }
}

/// Convert a media page to a page of mixed search results; a response without
/// a `Page` gives [`AniListError::NoData`].
pub fn media_page_to_search_results(resp: MediaPageResponse) -> (r: Result<PaginatedResponse<SearchResultCore>, AniListError>)
    ensures
        match resp.page {
            Some(pd) => r matches Ok(pr) && numbered_like(pr, pd.page_info)
                && pr.results@.len() == pd.media@.len()
                && forall|i: int| 0 <= i < pd.media@.len() ==> search_result_of_media(#[trigger] pr.results@[i], pd.media@[i]),
            None => r matches Err(AniListError::NoData),
        },
{
    match resp.page {
        Some(pd) => {
            let (page, total_pages, total_results) = numbers(&pd.page_info);
            let media = &pd.media;
            let mut results: Vec<SearchResultCore> = Vec::new();
            let mut i: usize = 0;
            while i < media.len()
                invariant
                    i <= media@.len(),
                    results@.len() == i,
                    forall|k: int| 0 <= k < i ==> search_result_of_media(#[trigger] results@[k], media@[k]),
                decreases media.len() - i,
            {
                results.push(search_result_from_media(&media[i]));
                i = i + 1;
            }
            Ok(PaginatedResponse { page, results, total_pages, total_results })
        },
        None => Err(AniListError::NoData),
    }
}

/// Convert a staff page to a page of people; a response without a `Page`
/// gives [`AniListError::NoData`].
pub fn staff_page_to_people(resp: StaffPageResponse) -> (r: Result<PaginatedResponse<PersonCore>, AniListError>)
    ensures
        match resp.page {
            Some(pd) => r matches Ok(pr) && numbered_like(pr, pd.page_info)
                && pr.results@.len() == pd.staff@.len()
                && forall|i: int| 0 <= i < pd.staff@.len() ==> person_of_staff(#[trigger] pr.results@[i], pd.staff@[i]),
            None => r matches Err(AniListError::NoData),
        },
{
    match resp.page {
        Some(pd) => {
            let (page, total_pages, total_results) = numbers(&pd.page_info);
            let staff = &pd.staff;
            let mut results: Vec<PersonCore> = Vec::new();
            let mut i: usize = 0;
            while i < staff.len()
                invariant
                    i <= staff@.len(),
                    results@.len() == i,
                    forall|k: int| 0 <= k < i ==> person_of_staff(#[trigger] results@[k], staff@[k]),
                decreases staff.len() - i,
            {
                results.push(person_from_staff(&staff[i]));
                i = i + 1;
            }
            Ok(PaginatedResponse { page, results, total_pages, total_results })
        },
        None => Err(AniListError::NoData),
    }
}

} // verus!
