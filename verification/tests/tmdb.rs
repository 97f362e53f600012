use cameo::anilist_client::AniListError;
use cameo::genre::Genre;
use cameo::image_url::{BackdropSize, ImageUrl, LogoSize, PosterSize, ProfileSize, StillSize};
use cameo::models::SearchResultCore;
use cameo::tmdb_client::{
    check_api_token, check_bearer_token, parse_movie_recs, CameoError, parse_provider_list, tmdb_page, watch_providers_of, RawCountryProviders,
    RawMovieRec, RawMovieRecsPage, RawProvider, TmdbError,
};
use cameo::tmdb_convert::{
    resolve_backdrop, resolve_poster, resolve_profile, tmdb_episode, tmdb_movie, tmdb_search_result, tmdb_season,
    TmdbEpisode, TmdbMovieItem, TmdbMultiItem, TmdbSeason,
};

#[test]
fn image_urls() {
    assert_eq!(ImageUrl::poster("/a.jpg", PosterSize::W500), "https://image.tmdb.org/t/p/w500/a.jpg");
    assert_eq!(ImageUrl::poster("/a.jpg", PosterSize::Original), "https://image.tmdb.org/t/p/original/a.jpg");
    assert_eq!(ImageUrl::backdrop("/b.jpg", BackdropSize::W1280), "https://image.tmdb.org/t/p/w1280/b.jpg");
    assert_eq!(ImageUrl::profile("/c.jpg", ProfileSize::H632), "https://image.tmdb.org/t/p/h632/c.jpg");
    assert_eq!(ImageUrl::still("/d.jpg", StillSize::W300), "https://image.tmdb.org/t/p/w300/d.jpg");
    assert_eq!(ImageUrl::logo("/e.png", LogoSize::W92), "https://image.tmdb.org/t/p/w92/e.png");
}

#[test]
fn resolved_image_paths() {
    assert_eq!(resolve_poster(&Some("/p.jpg".to_string())).as_deref(), Some("https://image.tmdb.org/t/p/w500/p.jpg"));
    assert_eq!(resolve_backdrop(&Some("/b.jpg".to_string())).as_deref(), Some("https://image.tmdb.org/t/p/w780/b.jpg"));
    assert_eq!(resolve_profile(&Some("/f.jpg".to_string())).as_deref(), Some("https://image.tmdb.org/t/p/h632/f.jpg"));
    assert_eq!(resolve_poster(&None), None);
}

#[test]
fn empty_token_is_refused() {
    assert!(check_api_token("abc").is_ok());
    match check_api_token("") {
        Err(TmdbError::InvalidConfig(m)) => assert_eq!(m, "API token must not be empty"),
        other => panic!("unexpected {:?}", other),
    }
}

#[test]
fn pages_are_cut_to_u32() {
    let p = tmdb_page(2, 10, 200, vec![1, 2, 3]);
    assert_eq!((p.page, p.total_pages, p.total_results), (2, 10, 200));
    assert_eq!(p.results, vec![1, 2, 3]);
    assert!(p.has_next_page());
    assert_eq!(p.next_page(), Some(3));
    let last = tmdb_page::<u8>(10, 10, 200, vec![]);
    assert!(!last.has_next_page());
    assert_eq!(last.next_page(), None);
}

fn movie_item() -> TmdbMovieItem {
    TmdbMovieItem {
        id: 550,
        title: Some("Fight Club".to_string()),
        original_title: Some("Fight Club".to_string()),
        overview: None,
        release_date: Some("1999-10-15".to_string()),
        poster_path: Some("/p.jpg".to_string()),
        backdrop_path: None,
        genre_ids: vec![18, 53, 424242],
        vote_count: -3,
        original_language: Some("en".to_string()),
        adult: false,
    }
}

#[test]
fn movie_conversion() {
    let m = tmdb_movie(&movie_item());
    assert_eq!(m.provider_id, "tmdb:550");
    assert_eq!(m.title, "Fight Club");
    assert_eq!(m.poster_url.as_deref(), Some("https://image.tmdb.org/t/p/w500/p.jpg"));
    assert_eq!(m.backdrop_url, None);
    assert_eq!(m.genres[0], Genre::Drama);
    assert_eq!(m.genres[1], Genre::Thriller);
    assert_eq!(m.genres.len(), 3);
    assert_eq!(m.vote_count, (-3i64) as u64);
}

fn multi(media_type: Option<&str>) -> TmdbMultiItem {
    TmdbMultiItem {
        id: 7,
        media_type: media_type.map(|s| s.to_string()),
        title: Some("T".to_string()),
        name: Some("N".to_string()),
        original_title: None,
        original_name: None,
        overview: None,
        release_date: None,
        poster_path: None,
        backdrop_path: None,
        genre_ids: vec![],
        vote_count: 4,
        original_language: None,
        adult: false,
    }
}

#[test]
fn multi_search_dispatch() {
    match tmdb_search_result(&multi(Some("movie"))) {
        SearchResultCore::Movie(m) => {
            assert_eq!(m.title, "T");
            assert_eq!(m.provider_id, "tmdb:7");
        },
        _ => panic!("expected a movie"),
    }
    match tmdb_search_result(&multi(Some("tv"))) {
        SearchResultCore::TvShow(t) => assert_eq!(t.name, "N"),
        _ => panic!("expected a show"),
    }
    assert!(matches!(tmdb_search_result(&multi(Some("person"))), SearchResultCore::Person(_)));
    assert!(matches!(tmdb_search_result(&multi(None)), SearchResultCore::Person(_)));
}

#[test]
fn season_and_episodes() {
    let s = TmdbSeason {
        season_number: 1,
        name: Some("Season 1".to_string()),
        overview: None,
        air_date: Some("2008-01-20".to_string()),
        poster_path: None,
        episodes: vec![TmdbEpisode {
            episode_number: 1,
            name: Some("Pilot".to_string()),
            overview: None,
            air_date: None,
            runtime: 0,
            still_path: Some("/s.jpg".to_string()),
        }],
    };
    let d = tmdb_season(1396, &s);
    assert_eq!(d.show_id, "tmdb:1396");
    assert_eq!(d.season_number, 1);
    assert_eq!(d.episodes.len(), 1);
    assert_eq!(d.episodes[0].runtime, None);
    assert_eq!(d.episodes[0].still_url.as_deref(), Some("https://image.tmdb.org/t/p/w300/s.jpg"));
    let e = tmdb_episode(&TmdbEpisode { runtime: 47, ..s.episodes[0].clone() });
    assert_eq!(e.runtime, Some(47));
}

#[test]
fn provider_lists_skip_unnamed_services() {
    let list = Some(vec![
        RawProvider { provider_name: Some("Netflix".to_string()), logo_path: Some("/n.png".to_string()) },
        RawProvider { provider_name: None, logo_path: Some("/x.png".to_string()) },
        RawProvider { provider_name: Some("Hulu".to_string()), logo_path: None },
    ]);
    let s = parse_provider_list(&list);
    assert_eq!(s.len(), 2);
    assert_eq!(s[0].name, "Netflix");
    assert_eq!(s[0].logo_url.as_deref(), Some("https://image.tmdb.org/t/p/w92/n.png"));
    assert_eq!(s[1].name, "Hulu");
    assert_eq!(s[1].logo_url, None);
    assert!(parse_provider_list(&None).is_empty());
}

#[test]
fn watch_providers_by_country() {
    let countries = Some(vec![(
        "US".to_string(),
        RawCountryProviders {
            flatrate: Some(vec![RawProvider { provider_name: Some("Max".to_string()), logo_path: None }]),
            rent: None,
            buy: None,
        },
    )]);
    let w = watch_providers_of(550, &countries);
    assert_eq!(w.provider_id, "tmdb:550");
    assert_eq!(w.results.len(), 1);
    assert_eq!(w.results[0].0, "US");
    assert_eq!(w.results[0].1.flatrate[0].name, "Max");
    assert!(w.results[0].1.rent.is_empty());
    assert!(watch_providers_of(1, &None).results.is_empty());
}

fn rec(id: Option<i64>, title: &str) -> RawMovieRec {
    RawMovieRec {
        id,
        title: Some(title.to_string()),
        original_title: None,
        overview: None,
        release_date: None,
        poster_path: None,
        backdrop_path: None,
        genre_ids: Some(vec![Some(28), None, Some(12)]),
        vote_count: None,
        original_language: None,
        adult: None,
    }
}

#[test]
fn recommendations_skip_entries_without_id() {
    let raw = RawMovieRecsPage {
        page: None,
        total_pages: Some(3),
        total_results: None,
        results: Some(vec![rec(Some(1), "A"), rec(None, "B"), rec(Some(3), "C")]),
    };
    let p = parse_movie_recs(&raw);
    assert_eq!((p.page, p.total_pages, p.total_results), (1, 3, 0));
    assert_eq!(p.results.len(), 2);
    assert_eq!(p.results[0].index, 0);
    assert_eq!(p.results[0].movie.provider_id, "tmdb:1");
    assert_eq!(p.results[1].index, 2);
    assert_eq!(p.results[1].movie.title, "C");
    assert_eq!(p.results[1].movie.genres, vec![Genre::Action, Genre::Adventure]);
    assert!(!p.results[1].movie.adult);
}

#[test]
fn provider_errors_convert_into_the_core_error() {
    let e: CameoError = TmdbError::RateLimitExceeded.into();
    assert!(matches!(e, CameoError::Tmdb(TmdbError::RateLimitExceeded)));
    let e: CameoError = AniListError::NoData.into();
    assert!(matches!(e, CameoError::AniList(AniListError::NoData)));
    match cameo::tmdb_client::api_error(None, "boom".to_string()) {
        TmdbError::Api { status, message } => {
            assert_eq!(status, 0);
            assert_eq!(message, "boom");
        },
        other => panic!("unexpected {:?}", other),
    }
}

#[test]
fn client_errors_become_api_errors() {
    let err = progenitor_client::Error::<()>::InvalidRequest("bad query".to_string());
    match TmdbError::from_client_error(err) {
        TmdbError::Api { status, message } => {
            assert_eq!(status, 0);
            assert_eq!(message, "Invalid Request: bad query");
        },
        other => panic!("unexpected {:?}", other),
    }
}

#[test]
fn bearer_tokens_must_fit_a_header() {
    assert!(check_bearer_token("abc.DEF-123_é\ttoken").is_ok());
    match check_bearer_token("") {
        Err(TmdbError::InvalidConfig(m)) => assert_eq!(m, "API token must not be empty"),
        other => panic!("unexpected {:?}", other),
    }
    for bad in ["abc\ndef", "x\u{7f}", "\u{1}"] {
        match check_bearer_token(bad) {
            Err(TmdbError::InvalidConfig(m)) => assert_eq!(m, "invalid API token: failed to parse header value"),
            other => panic!("unexpected {:?}", other),
        }
    }
}
