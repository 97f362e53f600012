use cameo::facade_plan::{DetailKind, ListOp};
use cameo::time_window::TimeWindow;
use cameo::tmdb_config::TmdbConfig;
use cameo::tmdb_request::{
    tmdb_detail_request, tmdb_episode_request, tmdb_list_request, tmdb_season_request, tmdb_watch_providers_request,
};

fn params(q: &[(String, String)]) -> Vec<(&str, &str)> {
    q.iter().map(|(k, v)| (k.as_str(), v.as_str())).collect()
}

#[test]
fn list_requests() {
    let cfg = TmdbConfig::new("t").with_language("en-US").with_region("US").with_include_adult(false);
    let r = tmdb_list_request(&cfg, &ListOp::SearchMovies("Dune".to_string()), Some(2));
    assert_eq!(r.path, "/3/search/movie");
    assert_eq!(
        params(&r.query),
        vec![("query", "Dune"), ("include_adult", "false"), ("language", "en-US"), ("page", "2"), ("region", "US")]
    );
    let r = tmdb_list_request(&cfg, &ListOp::SearchTvShows("x".to_string()), None);
    assert_eq!(r.path, "/3/search/tv");
    assert_eq!(params(&r.query), vec![("query", "x"), ("include_adult", "false"), ("language", "en-US")]);
    let r = tmdb_list_request(&cfg, &ListOp::TrendingTvShows(TimeWindow::Week), Some(5));
    assert_eq!(r.path, "/3/trending/tv/week");
    assert_eq!(params(&r.query), vec![("language", "en-US")]);
    let r = tmdb_list_request(&TmdbConfig::new("t"), &ListOp::TopRatedMovies, Some(u32::MAX));
    assert_eq!(r.path, "/3/movie/top_rated");
    assert_eq!(params(&r.query), vec![("page", "-1")]);
    let r = tmdb_list_request(&cfg, &ListOp::SimilarTvShows(1396), Some(1));
    assert_eq!(r.path, "/3/tv/1396/similar");
    assert_eq!(params(&r.query), vec![("language", "en-US"), ("page", "1")]);
    let r = tmdb_list_request(&cfg, &ListOp::MovieRecommendations(550), None);
    assert_eq!(r.path, "/3/movie/550/recommendations");
}

#[test]
fn detail_and_season_requests() {
    let cfg = TmdbConfig::new("t").with_language("fr-FR");
    let r = tmdb_detail_request(&cfg, DetailKind::Person, 287);
    assert_eq!(r.path, "/3/person/287");
    assert_eq!(params(&r.query), vec![("language", "fr-FR")]);
    assert_eq!(tmdb_detail_request(&cfg, DetailKind::Movie, 550).path, "/3/movie/550");
    assert_eq!(tmdb_season_request(&cfg, 1396, 2).path, "/3/tv/1396/season/2");
    let r = tmdb_episode_request(&cfg, 1396, 2, 7);
    assert_eq!(r.path, "/3/tv/1396/season/2/episode/7");
    assert_eq!(params(&r.query), vec![("language", "fr-FR")]);
    let r = tmdb_watch_providers_request(true, 1396);
    assert_eq!(r.path, "/3/tv/1396/watch/providers");
    assert!(r.query.is_empty());
    assert_eq!(tmdb_watch_providers_request(false, 550).path, "/3/movie/550/watch/providers");
}
