//! The decisions of the multi-provider facade: which provider answers, which
//! cache entry is consulted, and which entries are written with which
//! time-to-live. The application layer performs the cache and network
//! operations that these decisions name, and reports their outcomes back.
use core::time::Duration;
use vstd::prelude::*;
use vstd::string::StringExecFns;

use crate::cache_key::{CacheKey, MediaType};
use crate::cache_ttl::{age_in_days, opt_text, CacheTtlConfig};
use crate::text::{owned, push_signed_decimal, signed_decimal};
use crate::time_window::{time_window_str, time_window_text, TimeWindow};

verus! {

/// A data provider.
#[derive(Debug, Clone, Copy, PartialEq, Eq, Structural)]
pub enum Provider {
    /// The TMDB API.
    Tmdb,
    /// The AniList GraphQL API.
    AniList,
}

/// Which providers a client has.
#[derive(Debug, Clone, Copy, PartialEq, Eq, Structural)]
pub struct Providers {
    /// Whether TMDB is configured.
    pub tmdb: bool,
    /// Whether AniList is configured.
    pub anilist: bool,
}

impl Providers {
    /// The providers of a client being built: a client needs at least one, so
    /// a configuration with neither is refused with `NoProviders`.
    pub fn require_any(self) -> (r: Result<Providers, FacadeFailure>)
        ensures
            r == (if self.tmdb || self.anilist { Ok::<Providers, FacadeFailure>(self) } else { Err(FacadeFailure::NoProviders) }),
    {
        if self.tmdb || self.anilist { Ok(self) } else { Err(FacadeFailure::NoProviders) }
    }
}

/// Why the facade could not answer.
#[derive(Debug, Clone, Copy, PartialEq, Eq, Structural)]
pub enum FacadeFailure {
    /// No configured provider serves the request.
    NoProviders,
}

/// A listing operation of the facade: a search, a discovery list, or a list
/// of recommendations.
#[derive(Debug, Clone)]
pub enum ListOp {
    /// Search movies by title.
    SearchMovies(String),
    /// Search TV shows by name.
    SearchTvShows(String),
    /// Search people by name.
    SearchPeople(String),
    /// Search movies, TV shows and people together.
    SearchMulti(String),
    /// Trending movies.
    TrendingMovies(TimeWindow),
    /// Trending TV shows.
    TrendingTvShows(TimeWindow),
    /// Popular movies.
    PopularMovies,
    /// Top-rated movies.
    TopRatedMovies,
    /// Popular TV shows.
    PopularTvShows,
    /// Top-rated TV shows.
    TopRatedTvShows,
    /// Movies recommended from a movie.
    MovieRecommendations(i32),
    /// TV shows recommended from a TV show.
    TvRecommendations(i32),
    /// Movies similar to a movie.
    SimilarMovies(i32),
    /// TV shows similar to a TV show.
    SimilarTvShows(i32),
}

/// The search text of a search operation.
pub open spec fn search_query(op: ListOp) -> Option<Seq<char>> {
    match op {
        ListOp::SearchMovies(q) => Some(q@),
        ListOp::SearchTvShows(q) => Some(q@),
        ListOp::SearchPeople(q) => Some(q@),
        ListOp::SearchMulti(q) => Some(q@),
        _ => None,
    }
}

/// The media type that a search is restricted to (`None` for a multi-search).
pub open spec fn search_media_type(op: ListOp) -> Option<MediaType> {
    match op {
        ListOp::SearchMovies(_) => Some(MediaType::Movie),
        ListOp::SearchTvShows(_) => Some(MediaType::TvShow),
        ListOp::SearchPeople(_) => Some(MediaType::Person),
        _ => None,
    }
}

/// The media type of every item of a listing, `None` when the items are mixed.
pub open spec fn list_item_type(op: ListOp) -> Option<MediaType> {
    match op {
        ListOp::SearchMovies(_) => Some(MediaType::Movie),
        ListOp::SearchTvShows(_) => Some(MediaType::TvShow),
        ListOp::SearchPeople(_) => Some(MediaType::Person),
        ListOp::SearchMulti(_) => None,
        ListOp::TrendingMovies(_) => Some(MediaType::Movie),
        ListOp::TrendingTvShows(_) => Some(MediaType::TvShow),
        ListOp::PopularMovies => Some(MediaType::Movie),
        ListOp::TopRatedMovies => Some(MediaType::Movie),
        ListOp::PopularTvShows => Some(MediaType::TvShow),
        ListOp::TopRatedTvShows => Some(MediaType::TvShow),
        ListOp::MovieRecommendations(_) => Some(MediaType::Movie),
        ListOp::TvRecommendations(_) => Some(MediaType::TvShow),
        ListOp::SimilarMovies(_) => Some(MediaType::Movie),
        ListOp::SimilarTvShows(_) => Some(MediaType::TvShow),
    }
}

/// Whether AniList can answer a listing (it has no recommendations).
pub open spec fn anilist_serves(op: ListOp) -> bool {
    match op {
        ListOp::MovieRecommendations(_) | ListOp::TvRecommendations(_)
        | ListOp::SimilarMovies(_) | ListOp::SimilarTvShows(_) => false,
        _ => true,
    }
}

/// The discovery endpoint name of a non-search listing.
pub open spec fn endpoint_text(op: ListOp) -> Seq<char> {
    match op {
        ListOp::TrendingMovies(tw) => "trending_movies:"@ + time_window_text(tw),
        ListOp::TrendingTvShows(tw) => "trending_tv:"@ + time_window_text(tw),
        ListOp::PopularMovies => "popular_movies"@,
        ListOp::TopRatedMovies => "top_rated_movies"@,
        ListOp::PopularTvShows => "popular_tv_shows"@,
        ListOp::TopRatedTvShows => "top_rated_tv_shows"@,
        ListOp::MovieRecommendations(id) => "recommendations:movie:"@ + signed_decimal(id as int),
        ListOp::TvRecommendations(id) => "recommendations:tv:"@ + signed_decimal(id as int),
        ListOp::SimilarMovies(id) => "similar:movie:"@ + signed_decimal(id as int),
        ListOp::SimilarTvShows(id) => "similar:tv:"@ + signed_decimal(id as int),
        _ => Seq::empty(),
    }
}

/// The page number used in cache keys: the requested page, 1 when none.
pub open spec fn page_number(page: Option<u32>) -> u32 {
    match page {
        Some(p) => p,
        None => 1u32,
    }
}

/// `k` is the cache key of the given page of a listing: a search key for the
/// searches, a discovery key for the other listings.
pub open spec fn is_list_key(k: CacheKey, op: ListOp, page: u32) -> bool {
    match search_query(op) {
        Some(q) => k matches CacheKey::Search { media_type, query, page: p }
            && media_type == search_media_type(op) && query@ == q && p == page,
        None => k matches CacheKey::Discovery { endpoint, page: p }
            && endpoint@ == endpoint_text(op) && p == page,
    }
}

/// The provider that answers a listing: TMDB when configured, else AniList
/// when configured and able to answer, else none.
pub open spec fn list_provider(op: ListOp, providers: Providers) -> Option<Provider> {
    if providers.tmdb {
        Some(Provider::Tmdb)
    } else if providers.anilist && anilist_serves(op) {
        Some(Provider::AniList)
    } else {
        None
    }
}

/// A cache write: the key, and how long the entry lives.
#[derive(Debug, Clone)]
pub struct CacheWrite {
    /// The key written.
    pub key: CacheKey,
    /// The entry's time to live.
    pub ttl: Duration,
}

/// The identity of one item of a fetched listing.
#[derive(Debug, Clone)]
pub struct FetchedItem {
    /// What kind of item it is.
    pub kind: MediaType,
    /// Its provider-qualified ID.
    pub provider_id: String,
}

/// What the facade does next.
#[derive(Debug, Clone)]
pub enum Action {
    /// Look the key up in the cache, then report whether it was found.
    LookUp(CacheKey),
    /// Ask the provider, then report what it returned.
    Fetch(Provider),
    /// Answer with the cached value.
    ReturnCached,
    /// Answer with this failure.
    Fail(FacadeFailure),
}

/// Where a run stands.
#[derive(Debug, Clone, Copy, PartialEq, Eq, Structural)]
pub enum Phase {
    /// Waiting for the cache lookup.
    AwaitCache,
    /// Waiting for the provider's answer.
    AwaitProvider,
    /// The run is over.
    Finished,
}

/// The run of one listing operation.
#[derive(Debug, Clone)]
pub struct ListRun {
    /// The operation.
    pub op: ListOp,
    /// The page number used in keys.
    pub page: u32,
    /// Whether a cache is configured.
    pub cache_on: bool,
    /// The provider that answers, if any.
    pub provider: Option<Provider>,
    /// Where the run stands.
    pub phase: Phase,
}

/// The writes after a listing page was fetched: the page itself under its
/// listing key (with the search or discovery TTL), then every item under its
/// item key (with the item TTL), in order.
pub open spec fn list_writes_ok(writes: Seq<CacheWrite>, op: ListOp, page: u32, items: Seq<FetchedItem>, ttl: CacheTtlConfig) -> bool {
    &&& writes.len() == items.len() + 1
    &&& is_list_key(writes[0].key, op, page)
    &&& writes[0].ttl == (if search_query(op) is Some { ttl.search } else { ttl.discovery })
    &&& forall|i: int| 0 <= i < items.len() ==> {
        &&& (#[trigger] writes[i + 1]).key matches CacheKey::Item { media_type, provider_id }
        &&& media_type == (match list_item_type(op) { Some(t) => t, None => items[i].kind })
        &&& provider_id@ == items[i].provider_id@
        &&& writes[i + 1].ttl == ttl.items
    }
}

fn endpoint_of(op: &ListOp) -> (r: String)
    ensures
        r@ == endpoint_text(*op),
{
    match op {
        ListOp::TrendingMovies(tw) => {
            let mut s = owned("trending_movies:");
            s.append(time_window_str(*tw));
            s
        },
        ListOp::TrendingTvShows(tw) => {
            let mut s = owned("trending_tv:");
            s.append(time_window_str(*tw));
            s
        },
        ListOp::PopularMovies => owned("popular_movies"),
        ListOp::TopRatedMovies => owned("top_rated_movies"),
        ListOp::PopularTvShows => owned("popular_tv_shows"),
        ListOp::TopRatedTvShows => owned("top_rated_tv_shows"),
        ListOp::MovieRecommendations(id) => {
            let mut s = owned("recommendations:movie:");
            push_signed_decimal(&mut s, *id as i64);
            s
        },
        ListOp::TvRecommendations(id) => {
            let mut s = owned("recommendations:tv:");
            push_signed_decimal(&mut s, *id as i64);
            s
        },
        ListOp::SimilarMovies(id) => {
            let mut s = owned("similar:movie:");
            push_signed_decimal(&mut s, *id as i64);
            s
        },
        ListOp::SimilarTvShows(id) => {
            let mut s = owned("similar:tv:");
            push_signed_decimal(&mut s, *id as i64);
            s
        },
        _ => String::new(),
    }
}

/// The cache key of the given page of a listing.
pub fn list_key(op: &ListOp, page: u32) -> (k: CacheKey)
    ensures
        is_list_key(k, *op, page),
{
    match op {
        ListOp::SearchMovies(q) => CacheKey::Search { media_type: Some(MediaType::Movie), query: q.clone(), page },
        ListOp::SearchTvShows(q) => CacheKey::Search { media_type: Some(MediaType::TvShow), query: q.clone(), page },
        ListOp::SearchPeople(q) => CacheKey::Search { media_type: Some(MediaType::Person), query: q.clone(), page },
        ListOp::SearchMulti(q) => CacheKey::Search { media_type: None, query: q.clone(), page },
        _ => CacheKey::Discovery { endpoint: endpoint_of(op), page },
    }
}

fn item_type(op: &ListOp) -> (r: Option<MediaType>)
    ensures
        r == list_item_type(*op),
{
    match op {
        ListOp::SearchMovies(_) => Some(MediaType::Movie),
        ListOp::SearchTvShows(_) => Some(MediaType::TvShow),
        ListOp::SearchPeople(_) => Some(MediaType::Person),
        ListOp::SearchMulti(_) => None,
        ListOp::TrendingMovies(_) => Some(MediaType::Movie),
        ListOp::TrendingTvShows(_) => Some(MediaType::TvShow),
        ListOp::PopularMovies => Some(MediaType::Movie),
        ListOp::TopRatedMovies => Some(MediaType::Movie),
        ListOp::PopularTvShows => Some(MediaType::TvShow),
        ListOp::TopRatedTvShows => Some(MediaType::TvShow),
        ListOp::MovieRecommendations(_) => Some(MediaType::Movie),
        ListOp::TvRecommendations(_) => Some(MediaType::TvShow),
        ListOp::SimilarMovies(_) => Some(MediaType::Movie),
        ListOp::SimilarTvShows(_) => Some(MediaType::TvShow),
    }
}

fn is_search(op: &ListOp) -> (r: bool)
    ensures
        r == (search_query(*op) is Some),
{
    match op {
        ListOp::SearchMovies(_) | ListOp::SearchTvShows(_) | ListOp::SearchPeople(_) | ListOp::SearchMulti(_) => true,
        _ => false,
    }
}

/// The provider that answers a listing.
pub fn pick_list_provider(op: &ListOp, providers: Providers) -> (r: Option<Provider>)
    ensures
        r == list_provider(*op, providers),
{
    if providers.tmdb {
        Some(Provider::Tmdb)
    } else if providers.anilist {
        match op {
            ListOp::MovieRecommendations(_) | ListOp::TvRecommendations(_)
            | ListOp::SimilarMovies(_) | ListOp::SimilarTvShows(_) => None,
            _ => Some(Provider::AniList),
        }
    } else {
        None
    }
}

/// The action that asks the provider, or fails when there is none.
pub open spec fn fetch_or_fail(provider: Option<Provider>) -> Action {
    match provider {
        Some(p) => Action::Fetch(p),
        None => Action::Fail(FacadeFailure::NoProviders),
    }
}

/// The phase after `fetch_or_fail`.
pub open spec fn phase_after_fetch_or_fail(provider: Option<Provider>) -> Phase {
    match provider {
        Some(_) => Phase::AwaitProvider,
        None => Phase::Finished,
    }
}

fn fetch_or_fail_exec(provider: Option<Provider>) -> (r: (Action, Phase))
    ensures
        r.0 == fetch_or_fail(provider),
        r.1 == phase_after_fetch_or_fail(provider),
{
    match provider {
        Some(p) => (Action::Fetch(p), Phase::AwaitProvider),
        None => (Action::Fail(FacadeFailure::NoProviders), Phase::Finished),
    }
}

impl ListRun {
    /// Starts a listing: with a cache, its page is looked up first; without
    /// one, the provider is asked at once (or the run fails when there is no
    /// provider for it).
    pub fn begin(op: ListOp, page: Option<u32>, cache_on: bool, providers: Providers) -> (r: (ListRun, Action))
        ensures
            r.0.op == op,
            r.0.page == page_number(page),
            r.0.cache_on == cache_on,
            r.0.provider == list_provider(op, providers),
            cache_on ==> r.0.phase == Phase::AwaitCache
                && (r.1 matches Action::LookUp(k) && is_list_key(k, op, page_number(page))),
            !cache_on ==> r.0.phase == phase_after_fetch_or_fail(list_provider(op, providers))
                && r.1 == fetch_or_fail(list_provider(op, providers)),
    {
        let page_num: u32 = match page { Some(p) => p, None => 1 };
        let provider = pick_list_provider(&op, providers);
        if cache_on {
            let key = list_key(&op, page_num);
            (ListRun { op, page: page_num, cache_on, provider, phase: Phase::AwaitCache }, Action::LookUp(key))
        } else {
            let (act, phase) = fetch_or_fail_exec(provider);
            (ListRun { op, page: page_num, cache_on, provider, phase }, act)
        }
    }

    /// The cache answered the lookup: a hit is returned as it is; on a miss
    /// the provider is asked (or the run fails when there is none).
    pub fn on_cache(&mut self, hit: bool) -> (a: Action)
        requires
            old(self).phase == Phase::AwaitCache,
        ensures
            final(self).op == old(self).op,
            final(self).page == old(self).page,
            final(self).cache_on == old(self).cache_on,
            final(self).provider == old(self).provider,
            hit ==> a == Action::ReturnCached && final(self).phase == Phase::Finished,
            !hit ==> a == fetch_or_fail(old(self).provider)
                && final(self).phase == phase_after_fetch_or_fail(old(self).provider),
    {
        if hit {
            self.phase = Phase::Finished;
            Action::ReturnCached
        } else {
            let (act, phase) = fetch_or_fail_exec(self.provider);
            self.phase = phase;
            act
        }
    }

    /// The provider answered with a page whose items are `items`: with a cache,
    /// the page and each item are written; without one, nothing is.
    pub fn on_fetched(&mut self, items: &Vec<FetchedItem>, ttl: &CacheTtlConfig) -> (writes: Vec<CacheWrite>)
        requires
            old(self).phase == Phase::AwaitProvider,
        ensures
            final(self).op == old(self).op,
            final(self).page == old(self).page,
            final(self).cache_on == old(self).cache_on,
            final(self).provider == old(self).provider,
            final(self).phase == Phase::Finished,
            old(self).cache_on ==> list_writes_ok(writes@, old(self).op, old(self).page, items@, *ttl),
            !old(self).cache_on ==> writes@.len() == 0,
    {
        self.phase = Phase::Finished;
        let mut writes: Vec<CacheWrite> = Vec::new();
        if !self.cache_on {
            return writes;
        }
        let page_ttl = if is_search(&self.op) { ttl.search } else { ttl.discovery };
        writes.push(CacheWrite { key: list_key(&self.op, self.page), ttl: page_ttl });
        let fixed = item_type(&self.op);
        let mut i: usize = 0;
        while i < items.len()
            invariant
                i <= items@.len(),
                writes@.len() == i + 1,
                fixed == list_item_type(self.op),
                is_list_key(writes@[0].key, self.op, self.page),
                writes@[0].ttl == (if search_query(self.op) is Some { ttl.search } else { ttl.discovery }),
                forall|k: int| 0 <= k < i ==> {
                    &&& (#[trigger] writes@[k + 1]).key matches CacheKey::Item { media_type, provider_id }
                    &&& media_type == (match list_item_type(self.op) { Some(t) => t, None => items@[k].kind })
                    &&& provider_id@ == items@[k].provider_id@
                    &&& writes@[k + 1].ttl == ttl.items
                },
            decreases items.len() - i,
        {
            let mt = match fixed { Some(t) => t, None => items[i].kind };
            let w = CacheWrite {
                key: CacheKey::Item { media_type: mt, provider_id: items[i].provider_id.clone() },
                ttl: ttl.items,
            };
            writes.push(w);
            proof {
                assert(writes@[i + 1].key matches CacheKey::Item { media_type, provider_id }
                    && media_type == (match list_item_type(self.op) { Some(t) => t, None => items@[i as int].kind })
                    && provider_id@ == items@[i as int].provider_id@);
            }
            i = i + 1;
        }
        writes
    }
}


/// The kind of item whose details are asked for.
#[derive(Debug, Clone, Copy, PartialEq, Eq, Structural)]
pub enum DetailKind {
    /// A movie.
    Movie,
    /// A TV show.
    TvShow,
    /// A person.
    Person,
}

/// The media type under which details of a kind are cached.
pub open spec fn detail_media_type(kind: DetailKind) -> MediaType {
    match kind {
        DetailKind::Movie => MediaType::Movie,
        DetailKind::TvShow => MediaType::TvShow,
        DetailKind::Person => MediaType::Person,
    }
}

/// The provider that answers a detail request: TMDB when configured, else AniList.
pub open spec fn detail_provider(providers: Providers) -> Option<Provider> {
    if providers.tmdb {
        Some(Provider::Tmdb)
    } else if providers.anilist {
        Some(Provider::AniList)
    } else {
        None
    }
}

/// The provider-qualified ID of an item: `tmdb:<id>` for TMDB; for AniList
/// `anilist:<id>`, and `anilist:staff:<id>` for people.
pub open spec fn qualified_id(provider: Provider, kind: DetailKind, id: i32) -> Seq<char> {
    match provider {
        Provider::Tmdb => "tmdb:"@ + signed_decimal(id as int),
        Provider::AniList => match kind {
            DetailKind::Person => "anilist:staff:"@ + signed_decimal(id as int),
            _ => "anilist:"@ + signed_decimal(id as int),
        },
    }
}

/// The provider-qualified ID of an item.
pub fn provider_id_of(provider: Provider, kind: DetailKind, id: i32) -> (r: String)
    ensures
        r@ == qualified_id(provider, kind, id),
{
    let mut s = match provider {
        Provider::Tmdb => owned("tmdb:"),
        Provider::AniList => match kind {
            DetailKind::Person => owned("anilist:staff:"),
            _ => owned("anilist:"),
        },
    };
    push_signed_decimal(&mut s, id as i64);
    s
}

/// What the provider reported about fetched details that bears on how long
/// they are cached.
#[derive(Debug, Clone)]
pub enum DetailFacts {
    /// A movie's release date and status.
    Movie {
        /// Release date, `YYYY-MM-DD`.
        release_date: Option<String>,
        /// Release status.
        status: Option<String>,
    },
    /// A TV show's air dates, status and production state.
    TvShow {
        /// First air date, `YYYY-MM-DD`.
        first_air_date: Option<String>,
        /// Last air date, `YYYY-MM-DD`.
        last_air_date: Option<String>,
        /// Status.
        status: Option<String>,
        /// Whether the show is in production.
        in_production: bool,
    },
    /// A person (cached with the fallback detail TTL).
    Person,
}

/// The text of an optional string.
pub open spec fn opt_string_text(s: Option<String>) -> Option<Seq<char>> {
    match s {
        Some(t) => Some(t@),
        None => None,
    }
}

/// `d` is a TTL that the detail policy gives for the facts on some day.
pub open spec fn detail_ttl_ok(d: Duration, facts: DetailFacts, ttl: CacheTtlConfig) -> bool {
    match facts {
        DetailFacts::Movie { release_date, status } => exists|today: i32|
            d == ttl.movie_ttl(age_in_days(today, opt_string_text(release_date)), opt_string_text(status)),
        DetailFacts::TvShow { first_air_date, last_air_date, status, in_production } => exists|today: i32|
            d == ttl.tv_ttl(
                age_in_days(today, opt_string_text(first_air_date)),
                age_in_days(today, opt_string_text(last_air_date)),
                opt_string_text(status),
                in_production,
            ),
        DetailFacts::Person => d == ttl.details,
    }
}

/// `k` is the detail key of a kind and provider-qualified ID.
pub open spec fn is_detail_key(k: CacheKey, kind: DetailKind, pid: Seq<char>) -> bool {
    k matches CacheKey::Detail { media_type, provider_id }
        && media_type == detail_media_type(kind) && provider_id@ == pid
}

/// `k` is the item key of a media type and provider-qualified ID.
pub open spec fn is_item_key(k: CacheKey, mt: MediaType, pid: Seq<char>) -> bool {
    k matches CacheKey::Item { media_type, provider_id }
        && media_type == mt && provider_id@ == pid
}

/// The run of one detail request.
#[derive(Debug, Clone)]
pub struct DetailRun {
    /// What is asked for.
    pub kind: DetailKind,
    /// The provider-specific ID.
    pub id: i32,
    /// Whether a cache is configured.
    pub cache_on: bool,
    /// The provider that answers, if any.
    pub provider: Option<Provider>,
    /// Where the run stands.
    pub phase: Phase,
}

fn kind_media_type(kind: DetailKind) -> (r: MediaType)
    ensures
        r == detail_media_type(kind),
{
    match kind {
        DetailKind::Movie => MediaType::Movie,
        DetailKind::TvShow => MediaType::TvShow,
        DetailKind::Person => MediaType::Person,
    }
}

/// The TTL of fetched details under the detail policy.
pub fn detail_ttl(facts: &DetailFacts, ttl: &CacheTtlConfig) -> (d: Duration)
    ensures
        detail_ttl_ok(d, *facts, *ttl),
{
    match facts {
        DetailFacts::Movie { release_date, status } => {
            let rd: Option<&str> = match release_date { Some(s) => Some(s.as_str()), None => None };
            let st: Option<&str> = match status { Some(s) => Some(s.as_str()), None => None };
            proof {
                assert(opt_text(rd) == opt_string_text(*release_date));
                assert(opt_text(st) == opt_string_text(*status));
            }
            ttl.movie_details_ttl(rd, st)
        },
        DetailFacts::TvShow { first_air_date, last_air_date, status, in_production } => {
            let fd: Option<&str> = match first_air_date { Some(s) => Some(s.as_str()), None => None };
            let ld: Option<&str> = match last_air_date { Some(s) => Some(s.as_str()), None => None };
            let st: Option<&str> = match status { Some(s) => Some(s.as_str()), None => None };
            proof {
                assert(opt_text(fd) == opt_string_text(*first_air_date));
                assert(opt_text(ld) == opt_string_text(*last_air_date));
                assert(opt_text(st) == opt_string_text(*status));
            }
            ttl.tv_show_details_ttl(fd, ld, st, *in_production)
        },
        DetailFacts::Person => ttl.details,
    }
}

impl DetailRun {
    /// Starts a detail request: without a provider it fails; with a cache the
    /// detail entry of the provider-qualified ID is looked up first; without
    /// one the provider is asked at once.
    pub fn begin(kind: DetailKind, id: i32, cache_on: bool, providers: Providers) -> (r: (DetailRun, Action))
        ensures
            r.0.kind == kind && r.0.id == id && r.0.cache_on == cache_on,
            r.0.provider == detail_provider(providers),
            detail_provider(providers) is None ==> r.1 == Action::Fail(FacadeFailure::NoProviders)
                && r.0.phase == Phase::Finished,
            detail_provider(providers) matches Some(p) ==> (
                if cache_on {
                    r.0.phase == Phase::AwaitCache
                        && (r.1 matches Action::LookUp(k) && is_detail_key(k, kind, qualified_id(p, kind, id)))
                } else {
                    r.0.phase == Phase::AwaitProvider && r.1 == Action::Fetch(p)
                }
            ),
    {
        let provider = if providers.tmdb {
            Some(Provider::Tmdb)
        } else if providers.anilist {
            Some(Provider::AniList)
        } else {
            None
        };
        match provider {
            None => (DetailRun { kind, id, cache_on, provider, phase: Phase::Finished }, Action::Fail(FacadeFailure::NoProviders)),
            Some(p) => {
                if cache_on {
                    let key = CacheKey::Detail { media_type: kind_media_type(kind), provider_id: provider_id_of(p, kind, id) };
                    (DetailRun { kind, id, cache_on, provider, phase: Phase::AwaitCache }, Action::LookUp(key))
                } else {
                    (DetailRun { kind, id, cache_on, provider, phase: Phase::AwaitProvider }, Action::Fetch(p))
                }
            },
        }
    }

    /// The cache answered the lookup: a hit is returned; on a miss the
    /// provider is asked.
    pub fn on_cache(&mut self, hit: bool) -> (a: Action)
        requires
            old(self).phase == Phase::AwaitCache,
            old(self).provider is Some,
        ensures
            final(self).kind == old(self).kind && final(self).id == old(self).id,
            final(self).cache_on == old(self).cache_on && final(self).provider == old(self).provider,
            hit ==> a == Action::ReturnCached && final(self).phase == Phase::Finished,
            !hit ==> a == Action::Fetch(old(self).provider->0) && final(self).phase == Phase::AwaitProvider,
    {
        if hit {
            self.phase = Phase::Finished;
            Action::ReturnCached
        } else {
            self.phase = Phase::AwaitProvider;
            match self.provider {
                Some(p) => Action::Fetch(p),
                None => Action::ReturnCached,
            }
        }
    }

    /// The provider answered: with a cache, the details are written under
    /// their detail key with the detail policy's TTL, and their base item
    /// under its item key with the item TTL; without one, nothing is written.
    pub fn on_fetched(&mut self, facts: &DetailFacts, ttl: &CacheTtlConfig) -> (writes: Vec<CacheWrite>)
        requires
            old(self).phase == Phase::AwaitProvider,
            old(self).provider is Some,
        ensures
            final(self).kind == old(self).kind && final(self).id == old(self).id,
            final(self).cache_on == old(self).cache_on && final(self).provider == old(self).provider,
            final(self).phase == Phase::Finished,
            !old(self).cache_on ==> writes@.len() == 0,
            old(self).cache_on ==> {
                let pid = qualified_id(old(self).provider->0, old(self).kind, old(self).id);
                &&& writes@.len() == 2
                &&& is_detail_key(writes@[0].key, old(self).kind, pid)
                &&& detail_ttl_ok(writes@[0].ttl, *facts, *ttl)
                &&& is_item_key(writes@[1].key, detail_media_type(old(self).kind), pid)
                &&& writes@[1].ttl == ttl.items
            },
    {
        self.phase = Phase::Finished;
        let mut writes: Vec<CacheWrite> = Vec::new();
        if !self.cache_on {
            return writes;
        }
        let p = match self.provider { Some(p) => p, None => Provider::Tmdb };
        let mt = kind_media_type(self.kind);
        let d = detail_ttl(facts, ttl);
        writes.push(CacheWrite {
            key: CacheKey::Detail { media_type: mt, provider_id: provider_id_of(p, self.kind, self.id) },
            ttl: d,
        });
        writes.push(CacheWrite {
            key: CacheKey::Item { media_type: mt, provider_id: provider_id_of(p, self.kind, self.id) },
            ttl: ttl.items,
        });
        writes
    }
}

/// The provider for the requests that only TMDB answers (seasons, episodes,
/// watch providers).
pub fn tmdb_only(providers: Providers) -> (r: Option<Provider>)
    ensures
        r == (if providers.tmdb { Some(Provider::Tmdb) } else { None::<Provider> }),
{
    if providers.tmdb { Some(Provider::Tmdb) } else { None }
}

/// The keys that a cached-item lookup consults, in order: the item entry
/// (filled by listings and detail requests), then the detail entry.
pub fn cached_item_keys(media_type: MediaType, provider_id: &str) -> (r: (CacheKey, CacheKey))
    ensures
        is_item_key(r.0, media_type, provider_id@),
        r.1 matches CacheKey::Detail { media_type: m, provider_id: p } && m == media_type && p@ == provider_id@,
{
    (
        CacheKey::Item { media_type, provider_id: owned(provider_id) },
        CacheKey::Detail { media_type, provider_id: owned(provider_id) },
    )
}

/// The media types, in the order that invalidation walks them.
pub open spec fn media_type_at(i: int) -> MediaType {
    if i == 0 { MediaType::Movie } else if i == 1 { MediaType::TvShow } else { MediaType::Person }
}

/// `keys` are the keys that invalidating `pid` removes: for movies, TV shows
/// and people in turn, the detail entry and the item entry.
pub open spec fn invalidation_set(keys: Seq<CacheKey>, pid: Seq<char>) -> bool {
    &&& keys.len() == 6
    &&& forall|i: int| 0 <= i < 3 ==> {
        &&& (#[trigger] keys[2 * i]) matches CacheKey::Detail { media_type, provider_id: p }
        &&& media_type == media_type_at(i) && p@ == pid
    }
    &&& forall|i: int| 0 <= i < 3 ==> is_item_key(#[trigger] keys[2 * i + 1], media_type_at(i), pid)
}

/// The keys that invalidating a provider-qualified ID removes: for movies, TV
/// shows and people in turn, the detail entry and the item entry.
pub fn invalidation_keys(provider_id: &str) -> (r: Vec<CacheKey>)
    ensures
        invalidation_set(r@, provider_id@),
{
    let mut r: Vec<CacheKey> = Vec::new();
    r.push(CacheKey::Detail { media_type: MediaType::Movie, provider_id: owned(provider_id) });
    r.push(CacheKey::Item { media_type: MediaType::Movie, provider_id: owned(provider_id) });
    r.push(CacheKey::Detail { media_type: MediaType::TvShow, provider_id: owned(provider_id) });
    r.push(CacheKey::Item { media_type: MediaType::TvShow, provider_id: owned(provider_id) });
    r.push(CacheKey::Detail { media_type: MediaType::Person, provider_id: owned(provider_id) });
    r.push(CacheKey::Item { media_type: MediaType::Person, provider_id: owned(provider_id) });
    proof {
        assert forall|i: int| 0 <= i < 3 implies is_item_key(#[trigger] r@[2 * i + 1], media_type_at(i), provider_id@) by {
            if i == 0 {} else if i == 1 {} else {}
        }
    }
    r
}

} // verus!
