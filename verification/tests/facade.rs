use cameo::cache_key::{CacheKey, MediaType};
use cameo::cache_ttl::{age_of, CacheTtlConfig};
use cameo::facade_plan::{
    cached_item_keys, detail_ttl, invalidation_keys, pick_list_provider, provider_id_of, tmdb_only, Action,
    DetailFacts, DetailKind, DetailRun, FacadeFailure, FetchedItem, ListOp, ListRun, Phase, Provider, Providers,
};
use cameo::pagination::PageWalk;
use cameo::time_window::TimeWindow;
use std::time::Duration;

const BOTH: Providers = Providers { tmdb: true, anilist: true };
const ANILIST: Providers = Providers { tmdb: false, anilist: true };
const NONE: Providers = Providers { tmdb: false, anilist: false };

fn looked_up(a: &Action) -> CacheKey {
    match a {
        Action::LookUp(k) => k.clone(),
        other => panic!("expected a lookup, got {:?}", other),
    }
}

#[test]
fn search_run_hit_returns_cache() {
    let (mut run, act) = ListRun::begin(ListOp::SearchMovies(" Dune ".to_string()), None, true, BOTH);
    let key = looked_up(&act);
    assert_eq!(key.key_type(), "search");
    assert_eq!(key.key_id(), "movie:dune:1");
    assert!(matches!(run.on_cache(true), Action::ReturnCached));
    assert_eq!(run.phase, Phase::Finished);
}

#[test]
fn search_run_miss_fetches_and_writes_page_then_items() {
    let (mut run, act) = ListRun::begin(ListOp::SearchMulti("Nolan".to_string()), Some(2), true, BOTH);
    let key = looked_up(&act);
    assert!(matches!(run.on_cache(false), Action::Fetch(Provider::Tmdb)));
    let items = vec![
        FetchedItem { kind: MediaType::Movie, provider_id: "tmdb:27205".to_string() },
        FetchedItem { kind: MediaType::Person, provider_id: "tmdb:525".to_string() },
    ];
    let ttl = CacheTtlConfig::default();
    let writes = run.on_fetched(&items, &ttl);
    assert_eq!(writes.len(), 3);
    assert_eq!(writes[0].key.key_id(), key.key_id());
    assert_eq!(writes[0].key.key_id(), "multi:nolan:2");
    assert_eq!(writes[0].ttl, Duration::from_secs(3600));
    assert_eq!(writes[1].key.key_type(), "item");
    assert_eq!(writes[1].key.key_id(), "movie:tmdb:27205");
    assert_eq!(writes[2].key.key_id(), "person:tmdb:525");
    assert_eq!(writes[2].ttl, Duration::from_secs(6 * 3600));
}

#[test]
fn discovery_keys_and_ttl() {
    let (mut run, act) = ListRun::begin(ListOp::TrendingTvShows(TimeWindow::Week), Some(3), true, ANILIST);
    assert_eq!(looked_up(&act).key_id(), "trending_tv:week:3");
    assert!(matches!(run.on_cache(false), Action::Fetch(Provider::AniList)));
    let items = vec![FetchedItem { kind: MediaType::Movie, provider_id: "anilist:1".to_string() }];
    let writes = run.on_fetched(&items, &CacheTtlConfig::default());
    assert_eq!(writes[0].ttl, Duration::from_secs(15 * 60));
    assert_eq!(writes[1].key.key_id(), "tv:anilist:1");
    let (_, act) = ListRun::begin(ListOp::SimilarMovies(-4), None, true, BOTH);
    assert_eq!(looked_up(&act).key_id(), "similar:movie:-4:1");
    let (_, act) = ListRun::begin(ListOp::TopRatedTvShows, None, true, BOTH);
    assert_eq!(looked_up(&act).key_id(), "top_rated_tv_shows:1");
}

#[test]
fn list_without_cache_or_provider() {
    let (mut run, act) = ListRun::begin(ListOp::PopularMovies, None, false, BOTH);
    assert!(matches!(act, Action::Fetch(Provider::Tmdb)));
    assert!(run.on_fetched(&vec![], &CacheTtlConfig::default()).is_empty());
    let (run, act) = ListRun::begin(ListOp::PopularMovies, None, false, NONE);
    assert!(matches!(act, Action::Fail(FacadeFailure::NoProviders)));
    assert_eq!(run.phase, Phase::Finished);
    let (_, act) = ListRun::begin(ListOp::MovieRecommendations(550), None, false, ANILIST);
    assert!(matches!(act, Action::Fail(FacadeFailure::NoProviders)));
    assert_eq!(pick_list_provider(&ListOp::TvRecommendations(1), ANILIST), None);
    assert_eq!(pick_list_provider(&ListOp::PopularTvShows, ANILIST), Some(Provider::AniList));
}

#[test]
fn detail_run_writes_detail_and_item() {
    let (mut run, act) = DetailRun::begin(DetailKind::Person, 123, true, ANILIST);
    let key = looked_up(&act);
    assert_eq!(key.key_id(), "person:anilist:staff:123");
    assert!(matches!(run.on_cache(false), Action::Fetch(Provider::AniList)));
    let ttl = CacheTtlConfig::default();
    let writes = run.on_fetched(&DetailFacts::Person, &ttl);
    assert_eq!(writes.len(), 2);
    assert_eq!(writes[0].key, key);
    assert_eq!(writes[0].ttl, Duration::from_secs(24 * 3600));
    assert_eq!(writes[1].key.key_type(), "item");
    assert_eq!(writes[1].key.key_id(), "person:anilist:staff:123");
}

#[test]
fn detail_run_without_provider_fails() {
    let (run, act) = DetailRun::begin(DetailKind::Movie, 1, true, NONE);
    assert!(matches!(act, Action::Fail(FacadeFailure::NoProviders)));
    assert_eq!(run.phase, Phase::Finished);
    let (_, act) = DetailRun::begin(DetailKind::Movie, 1, false, BOTH);
    assert!(matches!(act, Action::Fetch(Provider::Tmdb)));
}

#[test]
fn detail_ttls_follow_the_age_policy() {
    let ttl = CacheTtlConfig::default();
    let old = DetailFacts::Movie { release_date: Some("1999-10-15".to_string()), status: Some("Released".to_string()) };
    assert_eq!(detail_ttl(&old, &ttl), Duration::from_secs(7 * 24 * 3600));
    let planned = DetailFacts::Movie { release_date: None, status: Some("Planned".to_string()) };
    assert_eq!(detail_ttl(&planned, &ttl), Duration::from_secs(6 * 3600));
    let unknown = DetailFacts::Movie { release_date: Some("not a date".to_string()), status: None };
    assert_eq!(detail_ttl(&unknown, &ttl), Duration::from_secs(24 * 3600));
    let airing = DetailFacts::TvShow { first_air_date: None, last_air_date: None, status: None, in_production: true };
    assert_eq!(detail_ttl(&airing, &ttl), Duration::from_secs(4 * 3600));
    let ended = DetailFacts::TvShow {
        first_air_date: Some("2008-01-20".to_string()),
        last_air_date: Some("2013-09-29".to_string()),
        status: Some("Ended".to_string()),
        in_production: false,
    };
    assert_eq!(detail_ttl(&ended, &ttl), Duration::from_secs(7 * 24 * 3600));
}

#[test]
fn ttl_policy_for_given_ages() {
    let ttl = CacheTtlConfig::default();
    assert_eq!(ttl.movie_details_ttl_for_age(Some(2000), Some("Released")), ttl.old_content_details_ttl);
    assert_eq!(ttl.movie_details_ttl_for_age(Some(1095), Some("Released")), ttl.details);
    assert_eq!(ttl.movie_details_ttl_for_age(Some(180), None), ttl.recent_content_details_ttl);
    assert_eq!(ttl.movie_details_ttl_for_age(None, Some("Rumored")), ttl.recent_content_details_ttl);
    assert_eq!(ttl.tv_show_details_ttl_for_ages(Some(5000), Some(91), Some("Canceled"), false), ttl.old_content_details_ttl);
    assert_eq!(ttl.tv_show_details_ttl_for_ages(Some(5000), Some(90), Some("Canceled"), false), ttl.active_content_details_ttl);
    assert_eq!(ttl.tv_show_details_ttl_for_ages(None, None, Some("Returning Series"), false), ttl.recent_content_details_ttl);
    assert_eq!(ttl.tv_show_details_ttl_for_ages(Some(400), None, None, false), ttl.details);
}

#[test]
fn provider_ids_and_cached_items() {
    assert_eq!(provider_id_of(Provider::Tmdb, DetailKind::Movie, 550), "tmdb:550");
    assert_eq!(provider_id_of(Provider::AniList, DetailKind::TvShow, 21), "anilist:21");
    assert_eq!(provider_id_of(Provider::AniList, DetailKind::Person, 5), "anilist:staff:5");
    let (item, detail) = cached_item_keys(MediaType::Movie, "tmdb:550");
    assert_eq!(item.key_type(), "item");
    assert_eq!(detail.key_type(), "detail");
    assert_eq!(item.key_id(), "movie:tmdb:550");
    assert_eq!(detail.key_id(), "movie:tmdb:550");
}

#[test]
fn invalidation_covers_every_media_type() {
    let keys = invalidation_keys("tmdb:550");
    let ids: Vec<(String, String)> = keys.iter().map(|k| (k.key_type().to_string(), k.key_id())).collect();
    assert_eq!(
        ids,
        vec![
            ("detail".to_string(), "movie:tmdb:550".to_string()),
            ("item".to_string(), "movie:tmdb:550".to_string()),
            ("detail".to_string(), "tv:tmdb:550".to_string()),
            ("item".to_string(), "tv:tmdb:550".to_string()),
            ("detail".to_string(), "person:tmdb:550".to_string()),
            ("item".to_string(), "person:tmdb:550".to_string()),
        ]
    );
}

#[test]
fn providers_are_required() {
    assert_eq!(NONE.require_any(), Err(FacadeFailure::NoProviders));
    assert_eq!(ANILIST.require_any(), Ok(ANILIST));
    assert_eq!(tmdb_only(ANILIST), None);
    assert_eq!(tmdb_only(BOTH), Some(Provider::Tmdb));
}

#[test]
fn page_walk_goes_page_by_page() {
    let mut w = PageWalk::start();
    assert_eq!(w.next, Some(1));
    w.record(true);
    assert_eq!(w.next, Some(2));
    w.record(true);
    assert_eq!(w.next, Some(3));
    w.record(false);
    assert_eq!(w.next, None);
}

#[test]
fn distinct_items_get_distinct_entries() {
    let a = provider_id_of(Provider::Tmdb, DetailKind::Movie, 12);
    let b = provider_id_of(Provider::AniList, DetailKind::Movie, 12);
    let c = provider_id_of(Provider::Tmdb, DetailKind::Movie, 120);
    let d = provider_id_of(Provider::AniList, DetailKind::Person, 12);
    let ids = [a, b, c, d];
    for i in 0..ids.len() {
        for j in 0..ids.len() {
            assert_eq!(i == j, ids[i] == ids[j]);
        }
    }
}

#[test]
fn ages_count_days_between_dates() {
    let jan1_2022 = 738156;
    assert_eq!(age_of(jan1_2022 + 10, Some("2022-01-01")), Some(10));
    assert_eq!(age_of(jan1_2022, Some("2022-03-01")), Some(-59));
    assert_eq!(age_of(jan1_2022, Some("2022-13-01")), None);
    assert_eq!(age_of(jan1_2022, Some("yesterday")), None);
    assert_eq!(age_of(jan1_2022, None), None);
}

#[test]
fn different_listings_get_different_rows() {
    let ops = vec![
        ListOp::TrendingMovies(TimeWindow::Day),
        ListOp::TrendingMovies(TimeWindow::Week),
        ListOp::TrendingTvShows(TimeWindow::Day),
        ListOp::PopularMovies,
        ListOp::TopRatedMovies,
        ListOp::PopularTvShows,
        ListOp::TopRatedTvShows,
        ListOp::MovieRecommendations(1),
        ListOp::MovieRecommendations(11),
        ListOp::TvRecommendations(1),
        ListOp::SimilarMovies(-1),
        ListOp::SimilarTvShows(1),
    ];
    let mut rows = Vec::new();
    for op in &ops {
        for page in [1u32, 11] {
            let (_, act) = ListRun::begin(op.clone(), Some(page), true, BOTH);
            let k = looked_up(&act);
            rows.push((k.key_type().to_string(), k.key_id()));
        }
    }
    for i in 0..rows.len() {
        for j in 0..rows.len() {
            assert_eq!(rows[i] == rows[j], i == j);
        }
    }
}
