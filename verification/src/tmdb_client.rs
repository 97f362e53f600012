//! The TMDB client's own logic: its error type, the check of its token, and
//! the reading of the responses that the generated client returns as loose
//! JSON (movie recommendations and watch providers). The HTTP exchange is
//! performed by the application layer.
use vstd::prelude::*;

use crate::anilist_client::AniListError;
use crate::anilist_convert::clone_opt;
use crate::anilist_response::opt_view;
use crate::genre::Genre;
use crate::image_url::{
    backdrop_size_text, logo_size_text, poster_size_text, BackdropSize, ImageUrl, LogoSize, PosterSize,
};
use crate::models::{MovieCore, UnifiedStreamingService, UnifiedWatchProviderEntry, UnifiedWatchProviders};
use crate::pagination::PaginatedResponse;
use crate::text::{chars_of, owned, push_signed_decimal};
use crate::tmdb_convert::{opt_image, resolve_backdrop, resolve_poster, tmdb_genres, tmdb_id};

verus! {

/// The error type of `serde_json`, carried through opaquely.
#[verifier::external_type_specification]
#[verifier::external_body]
pub struct ExSerdeJsonError(serde_json::Error);

/// Error type for the TMDB provider.
#[derive(Debug)]
pub enum TmdbError {
    /// Error from the underlying HTTP client.
    Http(reqwest::Error),
    /// Error from the generated client, with the HTTP status code (0 when the
    /// error carries none).
    Api {
        /// HTTP response status code.
        status: u16,
        /// Human-readable error description from the API or client library.
        message: String,
    },
    /// JSON deserialization error.
    Deserialization(serde_json::Error),
    /// Exceeded the configured per-client request concurrency timeout.
    RateLimitExceeded,
    /// The rate-limit semaphore has been closed (internal error).
    Closed,
    /// Invalid configuration.
    InvalidConfig(String),
}

/// Core error type for direct provider use: wraps provider-specific errors so
/// callers can handle them uniformly.
#[derive(Debug)]
pub enum CameoError {
    /// Error from the TMDB provider.
    Tmdb(TmdbError),
    /// Error from the AniList provider.
    AniList(AniListError),
}

impl From<TmdbError> for CameoError {
    fn from(e: TmdbError) -> (r: CameoError) {
        CameoError::Tmdb(e)
    }
}

impl vstd::std_specs::convert::FromSpecImpl<TmdbError> for CameoError {
    open spec fn obeys_from_spec() -> bool {
        true
    }

    open spec fn from_spec(e: TmdbError) -> CameoError {
        CameoError::Tmdb(e)
    }
}

impl From<AniListError> for CameoError {
    fn from(e: AniListError) -> (r: CameoError) {
        CameoError::AniList(e)
    }
}

impl vstd::std_specs::convert::FromSpecImpl<AniListError> for CameoError {
    open spec fn obeys_from_spec() -> bool {
        true
    }

    open spec fn from_spec(e: AniListError) -> CameoError {
        CameoError::AniList(e)
    }
}

/// The API error of a failed call of the generated client: its status code,
/// or 0 when it has none, and its message.
pub fn api_error(status: Option<u16>, message: String) -> (e: TmdbError)
    ensures
        e == (TmdbError::Api { status: match status { Some(s) => s, None => 0u16 }, message }),
{
    TmdbError::Api { status: match status { Some(s) => s, None => 0 }, message }
}

#[verifier::external_type_specification]
#[verifier::external_body]
#[verifier::reject_recursive_types(E)]
pub struct ExClientError<E>(progenitor_client::Error<E>);

/// Calls `progenitor_client::Error::status`: the HTTP status of the response
/// that the error came from, as a number, when it came from one. Which
/// response it was is not visible here, so nothing is stated of the result.
#[verifier::external_body]
fn client_error_status<E: core::fmt::Debug>(err: &progenitor_client::Error<E>) -> (r: Option<u16>) {
    match err.status() {
        Some(code) => Some(code.as_u16()),
        None => None,
    }
}

/// Formats a `progenitor_client::Error` with its `Display` impl. The text
/// depends on the response, so nothing is stated of it.
#[verifier::external_body]
fn client_error_message<E: core::fmt::Debug>(err: &progenitor_client::Error<E>) -> (r: String) {
    format!("{err}")
}

impl TmdbError {
    /// The error for a failed call of the generated TMDB client: an API error
    /// carrying the response's status (0 when there was no response) and the
    /// client's description of the failure.
    pub fn from_client_error<E: core::fmt::Debug>(err: progenitor_client::Error<E>) -> (e: TmdbError)
        ensures
            e is Api,
    {
        let status = client_error_status(&err);
        let message = client_error_message(&err);
        api_error(status, message)
    }
}

/// Checks the API token of a client configuration: an empty token is refused.
pub fn check_api_token(token: &str) -> (r: Result<(), TmdbError>)
    ensures
        token@.len() == 0 <==> (r matches Err(TmdbError::InvalidConfig(m)) && m@ == "API token must not be empty"@),
        token@.len() != 0 <==> r is Ok,
{
    if token.is_empty() {
        Err(TmdbError::InvalidConfig(owned("API token must not be empty")))
    } else {
        Ok(())
    }
}

/// Whether a character may stand in an HTTP header value: every byte of its
/// UTF-8 encoding must be a tab or at least 32 and not 127 (`DEL`). Bytes of
/// characters beyond ASCII are all at least 128, so only ASCII control
/// characters other than tab, and `DEL`, are refused.
pub open spec fn header_char_ok(c: char) -> bool {
    ((c as u32) >= 32 && (c as u32) != 127) || c == '\t'
}

/// Whether a whole text may stand in an HTTP header value.
pub open spec fn header_text_ok(s: Seq<char>) -> bool {
    forall|i: int| 0 <= i < s.len() ==> header_char_ok(#[trigger] s[i])
}

/// Checks the API token of a client configuration before it is sent as
/// `Bearer <token>` in the `Authorization` header: an empty token is refused,
/// and so is one with a character that a header value cannot hold (the
/// prefix `Bearer ` itself always can).
pub fn check_bearer_token(token: &str) -> (r: Result<(), TmdbError>)
    ensures
        token@.len() == 0 <==> (r matches Err(TmdbError::InvalidConfig(m)) && m@ == "API token must not be empty"@),
        token@.len() != 0 ==> (r is Ok <==> header_text_ok(token@)),
        token@.len() != 0 && !header_text_ok(token@) ==> (r matches Err(TmdbError::InvalidConfig(m))
            && m@ == "invalid API token: failed to parse header value"@),
{
    match check_api_token(token) {
        Err(e) => return Err(e),
        Ok(()) => {},
    }
    let chars = chars_of(token);
    let mut i: usize = 0;
    while i < chars.len()
        invariant
            i <= chars@.len(),
            chars@ == token@,
            forall|k: int| 0 <= k < i ==> header_char_ok(#[trigger] chars@[k]),
        decreases chars.len() - i,
    {
        let c = chars[i];
        let code: u32 = c as u32;
        if !((code >= 32 && code != 127) || c == '\t') {
            let r = Err(TmdbError::InvalidConfig(owned("invalid API token: failed to parse header value")));
            proof {
                reveal_strlit("API token must not be empty");
                reveal_strlit("invalid API token: failed to parse header value");
            }
            assert("invalid API token: failed to parse header value"@.len() != "API token must not be empty"@.len());
            assert(!header_char_ok(token@[i as int]));
            return r;
        }
        i = i + 1;
    }
    Ok(())
}

/// A page of a TMDB list, its counters cut to `u32` as `as u32` does.
pub fn tmdb_page<T>(page: i64, total_pages: i64, total_results: i64, results: Vec<T>) -> (r: PaginatedResponse<T>)
    ensures
        r.page == page as u32,
        r.total_pages == total_pages as u32,
        r.total_results == total_results as u32,
        r.results == results,
{
    PaginatedResponse {
        page: #[verifier::truncate] (page as u32),
        results,
        total_pages: #[verifier::truncate] (total_pages as u32),
        total_results: #[verifier::truncate] (total_results as u32),
    }
}

/// One streaming service as it stands in a watch-provider response: the
/// fields that are strings, and `None` for absent or non-string ones.
#[derive(Debug, Clone)]
pub struct RawProvider {
    /// `provider_name`.
    pub provider_name: Option<String>,
    /// `logo_path`.
    pub logo_path: Option<String>,
}

/// The services of one country in a watch-provider response; a list is
/// `None` where the field is absent or not an array.
#[derive(Debug, Clone)]
pub struct RawCountryProviders {
    /// `flatrate`.
    pub flatrate: Option<Vec<RawProvider>>,
    /// `rent`.
    pub rent: Option<Vec<RawProvider>>,
    /// `buy`.
    pub buy: Option<Vec<RawProvider>>,
}

/// The services named in a raw list, in order: those without a name are
/// dropped, and the logo path becomes a `w92` logo URL.
pub open spec fn services_of(v: Seq<RawProvider>) -> Seq<(Seq<char>, Option<Seq<char>>)>
    decreases v.len(),
{
    if v.len() == 0 {
        Seq::empty()
    } else {
        services_of(v.drop_last()) + match v.last().provider_name {
            Some(n) => seq![(n@, opt_image(v.last().logo_path, logo_size_text(LogoSize::W92)))],
            None => Seq::empty(),
        }
    }
}

/// The name and logo of each service.
pub open spec fn service_views(v: Seq<UnifiedStreamingService>) -> Seq<(Seq<char>, Option<Seq<char>>)> {
    v.map_values(|s: UnifiedStreamingService| (s.name@, opt_view(s.logo_url)))
}

/// The services of an optional raw list (none where there is no list).
pub open spec fn opt_services(v: Option<Vec<RawProvider>>) -> Seq<(Seq<char>, Option<Seq<char>>)> {
    match v {
        Some(l) => services_of(l@),
        None => Seq::empty(),
    }
}

/// Parse a list of streaming services.
pub fn parse_provider_list(list: &Option<Vec<RawProvider>>) -> (r: Vec<UnifiedStreamingService>)
    ensures
        service_views(r@) == opt_services(*list),
{
    let mut out: Vec<UnifiedStreamingService> = Vec::new();
    match list {
        Some(v) => {
            let mut i: usize = 0;
            while i < v.len()
                invariant
                    i <= v@.len(),
                    service_views(out@) == services_of(v@.take(i as int)),
                decreases v.len() - i,
            {
                match &v[i].provider_name {
                    Some(n) => {
                        let logo_url = match &v[i].logo_path {
                            Some(p) => Some(ImageUrl::logo(p.as_str(), LogoSize::W92)),
                            None => None,
                        };
                        out.push(UnifiedStreamingService { name: n.clone(), logo_url });
                    },
                    None => {},
                }
                assert(v@.take(i + 1).drop_last() =~= v@.take(i as int));
                assert(service_views(out@) =~= services_of(v@.take(i + 1)));
                i = i + 1;
            }
            assert(v@.take(v@.len() as int) =~= v@);
        },
        None => {
            assert(service_views(out@) =~= opt_services(*list));
        },
    }
    out
}

/// `e` lists the services of a country's raw entry.
pub open spec fn entry_of(e: UnifiedWatchProviderEntry, raw: RawCountryProviders) -> bool {
    &&& service_views(e.flatrate@) == opt_services(raw.flatrate)
    &&& service_views(e.rent@) == opt_services(raw.rent)
    &&& service_views(e.buy@) == opt_services(raw.buy)
}

/// Parse the per-country entries of a watch-provider response; `None` (the
/// value is not an object) gives no entries. Countries keep their order.
/// Whether no country code occurs twice in a list of per-country entries.
pub open spec fn distinct_codes<T>(v: Seq<(String, T)>) -> bool {
    forall|i: int, j: int| 0 <= i < j < v.len() ==> (#[trigger] v[i]).0@ != (#[trigger] v[j]).0@
}

pub fn parse_watch_provider_results(countries: &Option<Vec<(String, RawCountryProviders)>>) -> (r: Vec<(String, UnifiedWatchProviderEntry)>)
    ensures
        countries matches Some(cs) && distinct_codes(cs@) ==> distinct_codes(r@),
        countries is None ==> r@.len() == 0,
        countries matches Some(cs) ==> {
            &&& r@.len() == cs@.len()
            &&& forall|i: int| 0 <= i < cs@.len() ==> (#[trigger] r@[i]).0@ == cs@[i].0@ && entry_of(r@[i].1, cs@[i].1)
        },
{
    let mut out: Vec<(String, UnifiedWatchProviderEntry)> = Vec::new();
    match countries {
        Some(cs) => {
            let mut i: usize = 0;
            while i < cs.len()
                invariant
                    i <= cs@.len(),
                    out@.len() == i,
                    forall|k: int| 0 <= k < i ==> (#[trigger] out@[k]).0@ == cs@[k].0@ && entry_of(out@[k].1, cs@[k].1),
                decreases cs.len() - i,
            {
                let (code, raw) = &cs[i];
                let entry = UnifiedWatchProviderEntry {
                    flatrate: parse_provider_list(&raw.flatrate),
                    rent: parse_provider_list(&raw.rent),
                    buy: parse_provider_list(&raw.buy),
                };
                out.push((code.clone(), entry));
                i = i + 1;
            }
        },
        None => {},
    }
    proof {
        if let Some(cs) = countries {
            if distinct_codes(cs@) {
                assert forall|i: int, j: int| 0 <= i < j < out@.len() implies (#[trigger] out@[i]).0@ != (#[trigger] out@[j]).0@ by {
                    assert(out@[i].0@ == cs@[i].0@);
                    assert(out@[j].0@ == cs@[j].0@);
                    assert(cs@[i].0@ != cs@[j].0@);
                }
            }
        }
    }
    out
}

/// The watch providers of a TMDB movie or series: its qualified ID, and the
/// parsed entries (none when the response has no results).
pub fn watch_providers_of(media_id: i32, countries: &Option<Vec<(String, RawCountryProviders)>>) -> (r: UnifiedWatchProviders)
    ensures
        r.provider_id@ == tmdb_id(media_id as i64),
        countries matches Some(cs) && distinct_codes(cs@) ==> distinct_codes(r.results@),
        countries is None ==> r.results@.len() == 0,
        countries matches Some(cs) ==> {
            &&& r.results@.len() == cs@.len()
            &&& forall|i: int| 0 <= i < cs@.len() ==> (#[trigger] r.results@[i]).0@ == cs@[i].0@ && entry_of(r.results@[i].1, cs@[i].1)
        },
{
    let mut provider_id = owned("tmdb:");
    push_signed_decimal(&mut provider_id, media_id as i64);
    UnifiedWatchProviders { provider_id, results: parse_watch_provider_results(countries) }
}

/// One recommended movie as it stands in the loose JSON of a recommendations
/// response: each field is `None` where it is absent or of another JSON type.
#[derive(Debug, Clone)]
pub struct RawMovieRec {
    /// `id` as an integer.
    pub id: Option<i64>,
    /// `title`.
    pub title: Option<String>,
    /// `original_title`.
    pub original_title: Option<String>,
    /// `overview`.
    pub overview: Option<String>,
    /// `release_date`.
    pub release_date: Option<String>,
    /// `poster_path`.
    pub poster_path: Option<String>,
    /// `backdrop_path`.
    pub backdrop_path: Option<String>,
    /// `genre_ids` (each element `None` unless an integer); `None` unless an array.
    pub genre_ids: Option<Vec<Option<i64>>>,
    /// `vote_count` as an integer.
    pub vote_count: Option<i64>,
    /// `original_language`.
    pub original_language: Option<String>,
    /// `adult` as a boolean.
    pub adult: Option<bool>,
}

/// The loose JSON of a recommendations response.
#[derive(Debug, Clone)]
pub struct RawMovieRecsPage {
    /// `page` as an integer.
    pub page: Option<i64>,
    /// `total_pages` as an integer.
    pub total_pages: Option<i64>,
    /// `total_results` as an integer.
    pub total_results: Option<i64>,
    /// `results`; `None` unless an array.
    pub results: Option<Vec<RawMovieRec>>,
}

/// A recommended movie, with the position of its entry in the response.
#[derive(Debug, Clone)]
pub struct RecommendedMovie {
    /// The index of the entry in the response's `results`.
    pub index: usize,
    /// The movie.
    pub movie: MovieCore,
}

/// The integers among optional values, in order.
pub open spec fn present_ids(v: Seq<Option<i64>>) -> Seq<i64>
    decreases v.len(),
{
    if v.len() == 0 {
        Seq::empty()
    } else {
        present_ids(v.drop_last()) + match v.last() {
            Some(g) => seq![g],
            None => Seq::empty(),
        }
    }
}

/// The positions of the entries that have an ID, in order.
pub open spec fn kept_entries(v: Seq<RawMovieRec>) -> Seq<int>
    decreases v.len(),
{
    if v.len() == 0 {
        Seq::empty()
    } else {
        kept_entries(v.drop_last()) + if v.last().id is Some { seq![v.len() - 1] } else { Seq::empty() }
    }
}

/// `m` is the unified movie of a raw recommendation (which has an ID).
pub open spec fn movie_of_rec(m: MovieCore, r: RawMovieRec) -> bool {
    &&& m.provider_id@ == tmdb_id(r.id->0)
    &&& m.title@ == (match r.title { Some(t) => t@, None => Seq::empty() })
    &&& m.original_title == r.original_title
    &&& m.overview == r.overview
    &&& m.release_date == r.release_date
    &&& opt_view(m.poster_url) == opt_image(r.poster_path, poster_size_text(PosterSize::W500))
    &&& opt_view(m.backdrop_url) == opt_image(r.backdrop_path, backdrop_size_text(BackdropSize::W780))
    &&& tmdb_genres(m.genres@, match r.genre_ids { Some(g) => present_ids(g@), None => Seq::empty() })
    &&& m.vote_count == (match r.vote_count { Some(c) => c, None => 0i64 }) as u64
    &&& m.original_language == r.original_language
    &&& m.adult == (r.adult == Some(true))
}

proof fn lemma_kept_bounds(v: Seq<RawMovieRec>)
    ensures
        forall|j: int| 0 <= j < kept_entries(v).len() ==> 0 <= #[trigger] kept_entries(v)[j] < v.len(),
    decreases v.len(),
{
    if v.len() > 0 {
        lemma_kept_bounds(v.drop_last());
        let prev = kept_entries(v.drop_last());
        let tail: Seq<int> = if v.last().id is Some { seq![v.len() - 1] } else { Seq::empty() };
        assert(kept_entries(v) == prev + tail);
        assert forall|j: int| 0 <= j < kept_entries(v).len() implies 0 <= #[trigger] kept_entries(v)[j] < v.len() by {
            if j < prev.len() {
                assert(kept_entries(v)[j] == prev[j]);
            } else {
                assert(kept_entries(v)[j] == tail[j - prev.len()]);
            }
        }
    }
}

fn ids_of(v: &Option<Vec<Option<i64>>>) -> (r: Vec<i64>)
    ensures
        r@ == (match *v { Some(g) => present_ids(g@), None => Seq::<i64>::empty() }),
{
    let mut out: Vec<i64> = Vec::new();
    match v {
        Some(g) => {
            let mut i: usize = 0;
            while i < g.len()
                invariant
                    i <= g@.len(),
                    out@ == present_ids(g@.take(i as int)),
                decreases g.len() - i,
            {
                match g[i] {
                    Some(x) => {
                        out.push(x);
                    },
                    None => {},
                }
                assert(g@.take(i + 1).drop_last() =~= g@.take(i as int));
                assert(out@ =~= present_ids(g@.take(i + 1)));
                i = i + 1;
            }
            assert(g@.take(g@.len() as int) =~= g@);
        },
        None => {},
    }
    out
}

fn rec_movie(id: i64, r: &RawMovieRec) -> (m: MovieCore)
    requires
        r.id == Some(id),
    ensures
        movie_of_rec(m, *r),
{
    let ids = ids_of(&r.genre_ids);
    let mut genres: Vec<Genre> = Vec::new();
    let mut i: usize = 0;
    while i < ids.len()
        invariant
            i <= ids@.len(),
            genres@.len() == i,
            forall|k: int| 0 <= k < i ==> match crate::genre::known_tmdb_genre(ids@[k] as int) {
                Some(g) => #[trigger] genres@[k] == g,
                None => genres@[k] == Genre::Other(crate::genre::UnknownGenre::TmdbId(crate::genre::unknown_tmdb_id(ids@[k]))),
            },
        decreases ids.len() - i,
    {
        genres.push(Genre::from_tmdb_id(ids[i]));
        i = i + 1;
    }
    let mut provider_id = owned("tmdb:");
    push_signed_decimal(&mut provider_id, id);
    let votes: i64 = match r.vote_count { Some(c) => c, None => 0 };
    MovieCore {
        provider_id,
        title: match &r.title { Some(t) => t.clone(), None => String::new() },
        original_title: clone_opt(&r.original_title),
        overview: clone_opt(&r.overview),
        release_date: clone_opt(&r.release_date),
        poster_url: resolve_poster(&r.poster_path),
        backdrop_url: resolve_backdrop(&r.backdrop_path),
        genres,
        vote_count: #[verifier::truncate] (votes as u64),
        original_language: clone_opt(&r.original_language),
        adult: match r.adult { Some(b) => b, None => false },
    }
}

/// Parse movie recommendations from the loose JSON returned by the generated
/// client: the counters default to page 1 of 1 with 0 results, entries
/// without an integer ID are dropped, and the others become movies in order.
pub fn parse_movie_recs(raw: &RawMovieRecsPage) -> (r: PaginatedResponse<RecommendedMovie>)
    ensures
        r.page == (match raw.page { Some(p) => p, None => 1i64 }) as u32,
        r.total_pages == (match raw.total_pages { Some(p) => p, None => 1i64 }) as u32,
        r.total_results == (match raw.total_results { Some(t) => t, None => 0i64 }) as u32,
        ({
            let entries = match raw.results { Some(v) => v@, None => Seq::<RawMovieRec>::empty() };
            let kept = kept_entries(entries);
            &&& r.results@.len() == kept.len()
            &&& forall|j: int| 0 <= j < kept.len() ==> {
                &&& (#[trigger] r.results@[j]).index == kept[j]
                &&& movie_of_rec(r.results@[j].movie, entries[kept[j]])
            }
        }),
{
    let page: i64 = match raw.page { Some(p) => p, None => 1 };
    let total_pages: i64 = match raw.total_pages { Some(p) => p, None => 1 };
    let total_results: i64 = match raw.total_results { Some(t) => t, None => 0 };
    let mut results: Vec<RecommendedMovie> = Vec::new();
    match &raw.results {
        Some(v) => {
            let mut i: usize = 0;
            while i < v.len()
                invariant
                    i <= v@.len(),
                    results@.len() == kept_entries(v@.take(i as int)).len(),
                    forall|j: int| 0 <= j < results@.len() ==> {
                        &&& (#[trigger] results@[j]).index == kept_entries(v@.take(i as int))[j]
                        &&& movie_of_rec(results@[j].movie, v@[kept_entries(v@.take(i as int))[j]])
                    },
                decreases v.len() - i,
            {
                let ghost before = v@.take(i as int);
                assert(v@.take(i + 1).drop_last() =~= before);
                proof { lemma_kept_bounds(before); }
                match v[i].id {
                    Some(id) => {
                        let m = rec_movie(id, &v[i]);
                        results.push(RecommendedMovie { index: i, movie: m });
                    },
                    None => {},
                }
                assert(kept_entries(v@.take(i + 1)) == kept_entries(before)
                    + if v@[i as int].id is Some { seq![i as int] } else { Seq::<int>::empty() });
                i = i + 1;
            }
            assert(v@.take(v@.len() as int) =~= v@);
        },
        None => {},
    }
    PaginatedResponse {
        page: #[verifier::truncate] (page as u32),
        results,
        total_pages: #[verifier::truncate] (total_pages as u32),
        total_results: #[verifier::truncate] (total_results as u32),
    }
}

} // verus!
