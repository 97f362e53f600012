use cameo::discover::{DiscoverMovieSortBy, DiscoverMoviesQuery, DiscoverTvQuery, DiscoverTvSortBy};
use cameo::tmdb_config::TmdbConfig;

#[test]
fn movie_query_starts_from_the_config() {
    let cfg = TmdbConfig::new("t").with_language("en-US").with_region("US").with_include_adult(false);
    let q = DiscoverMoviesQuery::new(&cfg);
    assert_eq!(q.language.as_deref(), Some("en-US"));
    assert_eq!(q.region.as_deref(), Some("US"));
    assert_eq!(q.include_adult, Some(false));
    assert_eq!(q.with_genres, None);
    assert_eq!(q.page, None);
    assert!(q.sort_by.is_none());
}

#[test]
fn movie_setters_store_one_value_each() {
    let q = DiscoverMoviesQuery::new(&TmdbConfig::new("t"))
        .sort_by(DiscoverMovieSortBy::VoteAverageDesc)
        .with_genres("18")
        .primary_release_year(2024)
        .with_original_language("en")
        .primary_release_date_gte(738156)
        .page(3)
        .include_adult(true);
    assert_eq!(q.sort_by, Some(DiscoverMovieSortBy::VoteAverageDesc));
    assert_eq!(q.with_genres.as_deref(), Some("18"));
    assert_eq!(q.primary_release_year, Some(2024));
    assert_eq!(q.with_original_language.as_deref(), Some("en"));
    assert_eq!(q.primary_release_date_gte, Some(738156));
    assert_eq!(q.page, Some(3));
    assert_eq!(q.include_adult, Some(true));
    assert_eq!(q.without_genres, None);
    assert_eq!(q.page(u32::MAX).page, Some(-1));
    assert_eq!(DiscoverMovieSortBy::VoteAverageDesc.as_str(), "vote_average.desc");
}

#[test]
fn tv_query_and_setters() {
    let cfg = TmdbConfig::new("t").with_language("ja-JP").with_region("JP");
    let q = DiscoverTvQuery::new(&cfg).with_networks(213).first_air_date_year(2020).sort_by(DiscoverTvSortBy::PopularityDesc);
    assert_eq!(q.language.as_deref(), Some("ja-JP"));
    assert_eq!(q.include_adult, None);
    assert_eq!(q.with_networks, Some(213));
    assert_eq!(q.first_air_date_year, Some(2020));
    assert_eq!(q.sort_by.map(|s| s.as_str()), Some("popularity.desc"));
}
