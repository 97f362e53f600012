use cameo::cache_key::{normalize_query, CacheKey, MediaType};

#[test]
fn detail_key_id() {
    let key = CacheKey::Detail {
        media_type: MediaType::Movie,
        provider_id: "tmdb:550".to_string(),
    };
    assert_eq!(key.key_type(), "detail");
    assert_eq!(key.key_id(), "movie:tmdb:550");
}

#[test]
fn item_key_id() {
    let key = CacheKey::Item {
        media_type: MediaType::TvShow,
        provider_id: "tmdb:1396".to_string(),
    };
    assert_eq!(key.key_type(), "item");
    assert_eq!(key.key_id(), "tv:tmdb:1396");
}

#[test]
fn search_key_normalizes_query() {
    let key = CacheKey::Search {
        media_type: Some(MediaType::Movie),
        query: "  Dune  ".to_string(),
        page: 1,
    };
    assert_eq!(key.key_id(), "movie:dune:1");
}

#[test]
fn search_key_multi() {
    let key = CacheKey::Search {
        media_type: None,
        query: "brad pitt".to_string(),
        page: 2,
    };
    assert_eq!(key.key_id(), "multi:brad pitt:2");
}

#[test]
fn discovery_key_id() {
    let key = CacheKey::Discovery {
        endpoint: "trending_movies".to_string(),
        page: 1,
    };
    assert_eq!(key.key_id(), "trending_movies:1");
}

#[test]
fn key_types_of_search_and_discovery() {
    let s = CacheKey::Search { media_type: None, query: "x".to_string(), page: 1 };
    let d = CacheKey::Discovery { endpoint: "popular_movies".to_string(), page: 1 };
    assert_eq!(s.key_type(), "search");
    assert_eq!(d.key_type(), "discovery");
}

#[test]
fn person_key_and_large_page() {
    let key = CacheKey::Search {
        media_type: Some(MediaType::Person),
        query: "\tKeanu\n".to_string(),
        page: 4294967295,
    };
    assert_eq!(key.key_id(), "person:keanu:4294967295");
    let key = CacheKey::Discovery { endpoint: "popular_tv_shows".to_string(), page: 0 };
    assert_eq!(key.key_id(), "popular_tv_shows:0");
}

#[test]
fn normalize_query_trims_and_lowers() {
    assert_eq!(normalize_query("  The MATRIX "), "the matrix");
    assert_eq!(normalize_query(""), "");
    assert_eq!(normalize_query("   "), "");
    assert_eq!(normalize_query("ÉCOLE"), "école");
    assert_eq!(normalize_query("\u{3000}Akira\u{3000}"), "akira");
}

#[test]
fn queries_differing_in_case_share_a_key() {
    let a = CacheKey::Search { media_type: Some(MediaType::TvShow), query: " Breaking Bad".to_string(), page: 3 };
    let b = CacheKey::Search { media_type: Some(MediaType::TvShow), query: "breaking BAD  ".to_string(), page: 3 };
    assert_eq!(a.key_id(), b.key_id());
    assert_eq!(a.key_type(), b.key_type());
}

#[test]
fn different_searches_get_different_rows() {
    let keys = [
        CacheKey::Search { media_type: Some(MediaType::Movie), query: "a:1".to_string(), page: 2 },
        CacheKey::Search { media_type: Some(MediaType::Movie), query: "a".to_string(), page: 12 },
        CacheKey::Search { media_type: Some(MediaType::Movie), query: "a:1:2".to_string(), page: 1 },
        CacheKey::Search { media_type: None, query: "a:1".to_string(), page: 2 },
        CacheKey::Search { media_type: Some(MediaType::TvShow), query: "a:1".to_string(), page: 2 },
        CacheKey::Discovery { endpoint: "movie:a:1".to_string(), page: 2 },
    ];
    for i in 0..keys.len() {
        for j in 0..keys.len() {
            let same = keys[i].key_type() == keys[j].key_type() && keys[i].key_id() == keys[j].key_id();
            assert_eq!(same, i == j);
        }
    }
}

#[test]
fn keys_of_one_kind_share_a_row_only_for_the_same_request() {
    let keys = [
        CacheKey::Discovery { endpoint: "a:1".to_string(), page: 2 },
        CacheKey::Discovery { endpoint: "a".to_string(), page: 12 },
        CacheKey::Discovery { endpoint: "a:12".to_string(), page: 1 },
        CacheKey::Detail { media_type: MediaType::Movie, provider_id: "x".to_string() },
        CacheKey::Detail { media_type: MediaType::Movie, provider_id: "x:".to_string() },
        CacheKey::Detail { media_type: MediaType::TvShow, provider_id: "x".to_string() },
        CacheKey::Item { media_type: MediaType::Movie, provider_id: "x".to_string() },
    ];
    for i in 0..keys.len() {
        for j in 0..keys.len() {
            let same = keys[i].key_type() == keys[j].key_type() && keys[i].key_id() == keys[j].key_id();
            assert_eq!(same, i == j);
        }
    }
}

#[test]
fn unicode_white_space_is_trimmed() {
    assert_eq!(normalize_query("\u{a0}\u{2003}Ghibli\u{85}\u{2029}"), "ghibli");
    assert_eq!(normalize_query("\u{200b}ghibli"), "\u{200b}ghibli");
    assert_eq!(normalize_query("\u{1c}ghibli"), "\u{1c}ghibli");
}
