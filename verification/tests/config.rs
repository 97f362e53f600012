use cameo::anilist_config::AniListConfig;
use cameo::time_window::TimeWindow;
use cameo::tmdb_config::TmdbConfig;
use std::collections::HashMap;
use std::time::Duration;

#[test]
fn time_window_as_hashmap_key() {
    let mut map = HashMap::new();
    map.insert(TimeWindow::Day, "daily");
    map.insert(TimeWindow::Week, "weekly");
    assert_eq!(map[&TimeWindow::Day], "daily");
    assert_eq!(map[&TimeWindow::Week], "weekly");
}

#[test]
fn time_window_text() {
    assert_eq!(TimeWindow::Day.as_str(), "day");
    assert_eq!(TimeWindow::Week.as_str(), "week");
}

#[test]
fn with_per_page_normal() {
    let cfg = AniListConfig::new().with_per_page(25);
    assert_eq!(cfg.per_page, 25);
}

#[test]
fn with_per_page_clamp_below_min() {
    let cfg = AniListConfig::new().with_per_page(0);
    assert_eq!(cfg.per_page, 1);
}

#[test]
fn with_per_page_clamp_above_max() {
    let cfg = AniListConfig::new().with_per_page(100);
    assert_eq!(cfg.per_page, 50);
}

#[test]
fn with_per_page_boundary_values() {
    assert_eq!(AniListConfig::new().with_per_page(1).per_page, 1);
    assert_eq!(AniListConfig::new().with_per_page(50).per_page, 50);
}

#[test]
fn per_page_set_twice_stays_clamped() {
    let cfg = AniListConfig::new().with_per_page(u32::MAX).with_per_page(51);
    assert_eq!(cfg.per_page, 50);
    let cfg = cfg.with_per_page(7);
    assert_eq!(cfg.per_page, 7);
}

#[test]
fn anilist_defaults() {
    let cfg = AniListConfig::default();
    assert_eq!(cfg.base_url, "https://graphql.anilist.co");
    assert_eq!(cfg.per_page, 20);
    let cfg = AniListConfig::new_with_base_url("http://localhost:9000");
    assert_eq!(cfg.base_url, "http://localhost:9000");
    assert_eq!(cfg.per_page, 20);
}

#[test]
fn tmdb_config_builders() {
    let cfg = TmdbConfig::new("tok");
    assert_eq!(cfg.api_token, "tok");
    assert_eq!(cfg.base_url, None);
    assert_eq!(cfg.language, None);
    let cfg = cfg
        .with_language("fr-FR")
        .with_region("FR")
        .with_include_adult(true)
        .with_rate_limit(0)
        .with_rate_limit_timeout(Duration::from_secs(3));
    assert_eq!(cfg.language.as_deref(), Some("fr-FR"));
    assert_eq!(cfg.region.as_deref(), Some("FR"));
    assert_eq!(cfg.include_adult, Some(true));
    assert_eq!(cfg.rate_limit, 1);
    assert_eq!(TmdbConfig::new("t").rate_limit, 40);
    assert_eq!(TmdbConfig::new("t").with_rate_limit(5).rate_limit, 5);
    assert_eq!(cfg.rate_limit_timeout, Some(Duration::from_secs(3)));
    let cfg = TmdbConfig::new_with_base_url("t", "http://mock");
    assert_eq!(cfg.base_url.as_deref(), Some("http://mock"));
}
