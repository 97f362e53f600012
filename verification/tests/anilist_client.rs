use cameo::anilist_client::{
    graphql_data, media_details_request, media_page_to_movies, media_page_to_search_results, media_page_to_tv,
    popular_tv_shows_request, search_movies_request, search_multi_request, search_people_request,
    staff_page_to_people, top_rated_tv_shows_request, trending_movies_request, AniListError, FormatFilter,
    GraphQlQuery,
};
use cameo::anilist_config::AniListConfig;
use cameo::anilist_response::{
    AniListGqlError, AniListMedia, GraphQlResponse, MediaPageData, MediaPageResponse, PageInfo, StaffPageResponse,
};
use cameo::models::SearchResultCore;
use cameo::time_window::TimeWindow;

fn formats(f: &FormatFilter) -> Option<Vec<String>> {
    match f {
        FormatFilter::Only(v) => Some(v.clone()),
        _ => None,
    }
}

#[test]
fn request_plans() {
    let cfg = AniListConfig::new().with_per_page(30);
    let r = search_movies_request(&cfg, "Akira", None);
    assert_eq!(r.query, GraphQlQuery::SearchAnime);
    assert_eq!(r.search.as_deref(), Some("Akira"));
    assert_eq!((r.page, r.per_page), (Some(1), Some(30)));
    assert_eq!(formats(&r.format_in), Some(vec!["MOVIE".to_string()]));
    let r = search_multi_request(&cfg, "x", Some(3));
    assert!(matches!(r.format_in, FormatFilter::Any));
    assert_eq!(r.page, Some(3));
    let r = search_people_request(&cfg, "y", None);
    assert_eq!(r.query, GraphQlQuery::SearchStaff);
    assert!(matches!(r.format_in, FormatFilter::Omitted));
    let r = media_details_request(21);
    assert_eq!((r.query, r.id, r.page), (GraphQlQuery::MediaDetails, Some(21), None));
    let r = trending_movies_request(&cfg, TimeWindow::Week, Some(2));
    assert_eq!(r.query, GraphQlQuery::ListTrendingAnime);
    let tv = Some(vec!["TV", "TV_SHORT", "ONA", "OVA", "SPECIAL"].into_iter().map(String::from).collect());
    let r = popular_tv_shows_request(&cfg, None);
    assert_eq!(r.query, GraphQlQuery::ListPopularAnime);
    assert_eq!(formats(&r.format_in), tv);
    let r = top_rated_tv_shows_request(&cfg, None);
    assert_eq!(r.query, GraphQlQuery::ListTopScoredAnime);
    assert_eq!(formats(&r.format_in), tv);
}

#[test]
fn graphql_envelopes() {
    let ok = graphql_data(GraphQlResponse { data: Some(5), errors: Some(vec![]) });
    assert!(matches!(ok, Ok(5)));
    let err = graphql_data(GraphQlResponse {
        data: Some(5),
        errors: Some(vec![AniListGqlError { message: "bad".to_string(), status: Some(400) }]),
    });
    match err {
        Err(AniListError::GraphQL(v)) => assert_eq!(v[0].message, "bad"),
        other => panic!("unexpected {:?}", other),
    }
    assert!(matches!(graphql_data::<u8>(GraphQlResponse { data: None, errors: None }), Err(AniListError::NoData)));
}

#[test]
fn missing_entries_are_not_found() {
    let errors = vec![
        AniListGqlError { message: "Validation".to_string(), status: None },
        AniListGqlError { message: "Not Found.".to_string(), status: Some(404) },
    ];
    let r = graphql_data::<u8>(GraphQlResponse { data: None, errors: Some(errors) });
    assert!(matches!(r, Err(AniListError::NotFound)));
}

fn media(id: i32, format: &str) -> AniListMedia {
    AniListMedia {
        id,
        title: None,
        description: None,
        start_date: None,
        cover_image: None,
        banner_image: None,
        genres: None,
        popularity: None,
        average_score: None,
        episodes: None,
        duration: None,
        status: None,
        format: Some(format.to_string()),
        country_of_origin: None,
        is_adult: None,
    }
}

fn page(media: Vec<AniListMedia>) -> MediaPageResponse {
    MediaPageResponse {
        page: Some(MediaPageData {
            page_info: PageInfo { total: Some(41), current_page: Some(2), last_page: None, has_next_page: true, per_page: Some(20) },
            media,
        }),
    }
}

#[test]
fn media_pages() {
    let p = media_page_to_movies(page(vec![media(1, "MOVIE"), media(2, "MOVIE")])).unwrap();
    assert_eq!((p.page, p.total_pages, p.total_results), (2, 1, 41));
    assert_eq!(p.results[1].provider_id, "anilist:2");
    assert_eq!(p.results[0].title, "");
    let t = media_page_to_tv(page(vec![media(3, "TV")])).unwrap();
    assert_eq!(t.results[0].provider_id, "anilist:3");
    let s = media_page_to_search_results(page(vec![media(4, "MOVIE"), media(5, "ONA")])).unwrap();
    assert!(matches!(s.results[0], SearchResultCore::Movie(_)));
    assert!(matches!(s.results[1], SearchResultCore::TvShow(_)));
    assert!(matches!(media_page_to_movies(MediaPageResponse { page: None }), Err(AniListError::NoData)));
    assert!(matches!(staff_page_to_people(StaffPageResponse { page: None }), Err(AniListError::NoData)));
}
