use cameo::anilist_convert::{
    anilist_media_detail_to_movie_details, anilist_media_detail_to_tv_details, anilist_media_to_movie,
    anilist_media_to_search_result, anilist_media_to_tv, country_to_language, map_gender, map_genres,
    normalize_occupation, resolve_cover, resolve_title, staff_detail_to_person_details, staff_to_person,
};
use cameo::anilist_response::{
    AniListCoverImage, AniListDate, AniListMedia, AniListMediaDetail, AniListStaff, AniListStaffDetail,
    AniListStaffImage, AniListStaffName, AniListStudio, AniListStudios, AniListTitle,
};
use cameo::genre::{Genre, UnknownGenre};
use cameo::models::SearchResultCore;

fn make_media(id: i32, format: &str) -> AniListMedia {
    AniListMedia {
        id,
        title: Some(AniListTitle {
            romaji: Some("Romaji Title".to_string()),
            english: Some("English Title".to_string()),
            native: Some("ネイティブ".to_string()),
        }),
        description: Some("A description.".to_string()),
        start_date: Some(AniListDate {
            year: Some(2022),
            month: Some(4),
            day: Some(1),
        }),
        cover_image: Some(AniListCoverImage {
            large: Some("https://example.com/large.jpg".to_string()),
            extra_large: Some("https://example.com/xl.jpg".to_string()),
        }),
        banner_image: Some("https://example.com/banner.jpg".to_string()),
        genres: Some(vec!["Action".to_string(), "Mecha".to_string()]),
        popularity: Some(100000),
        average_score: Some(78),
        episodes: Some(24),
        duration: Some(23),
        status: Some("FINISHED".to_string()),
        format: Some(format.to_string()),
        country_of_origin: Some("JP".to_string()),
        is_adult: Some(false),
    }
}

fn make_staff() -> AniListStaff {
    AniListStaff {
        id: 123,
        name: Some(AniListStaffName {
            full: Some("Test Person".to_string()),
            native: Some("テスト".to_string()),
            alternative: vec![],
        }),
        image: Some(AniListStaffImage {
            large: Some("https://example.com/p.jpg".to_string()),
        }),
        description: None,
        primary_occupations: Some(vec!["Voice Actor".to_string()]),
        language: Some("Japanese".to_string()),
    }
}

fn check_basic_movie_fields(id: i32) {
    let movie = anilist_media_to_movie(make_media(id, "MOVIE"));
    assert_eq!(movie.provider_id, "anilist:42");
    assert_eq!(movie.title, "English Title");
    assert_eq!(movie.original_title.as_deref(), Some("ネイティブ"));
    assert_eq!(movie.release_date.as_deref(), Some("2022-04-01"));
    assert_eq!(movie.poster_url.as_deref(), Some("https://example.com/xl.jpg"));
    assert_eq!(movie.original_language.as_deref(), Some("ja"));
    assert!(!movie.adult);
}

#[test]
fn anilist_test_media_to_movie_basic_fields() {
    check_basic_movie_fields(42);
}

#[test]
fn mod_test_media_to_movie_basic_fields() {
    check_basic_movie_fields(42);
}

fn check_genre_mapping() {
    let movie = anilist_media_to_movie(make_media(1, "MOVIE"));
    assert!(movie.genres.contains(&Genre::Action));
    assert!(movie.genres.contains(&Genre::Mecha));
}

#[test]
fn anilist_test_media_to_movie_genre_mapping() {
    check_genre_mapping();
}

#[test]
fn mod_test_media_to_movie_genre_mapping() {
    check_genre_mapping();
}

fn check_tv_basic_fields() {
    let tv = anilist_media_to_tv(make_media(99, "TV"));
    assert_eq!(tv.provider_id, "anilist:99");
    assert_eq!(tv.name, "English Title");
    assert_eq!(tv.first_air_date.as_deref(), Some("2022-04-01"));
    assert_eq!(tv.origin_country, vec!["JP"]);
}

#[test]
fn anilist_test_media_to_tv_basic_fields() {
    check_tv_basic_fields();
}

#[test]
fn mod_test_media_to_tv_basic_fields() {
    check_tv_basic_fields();
}

fn check_search_dispatch() {
    let movie_result = anilist_media_to_search_result(make_media(1, "MOVIE"));
    assert!(matches!(movie_result, SearchResultCore::Movie(_)));
    let tv_result = anilist_media_to_search_result(make_media(2, "TV"));
    assert!(matches!(tv_result, SearchResultCore::TvShow(_)));
    let ova_result = anilist_media_to_search_result(make_media(3, "OVA"));
    assert!(matches!(ova_result, SearchResultCore::TvShow(_)));
}

#[test]
fn anilist_test_search_result_dispatch_by_format() {
    check_search_dispatch();
}

#[test]
fn mod_test_search_result_dispatch_by_format() {
    check_search_dispatch();
}

fn check_staff_to_person() {
    let person = staff_to_person(make_staff());
    assert_eq!(person.provider_id, "anilist:staff:123");
    assert_eq!(person.name, "Test Person");
    assert_eq!(person.known_for_department.as_deref(), Some("Voice Acting"));
    assert_eq!(person.profile_url.as_deref(), Some("https://example.com/p.jpg"));
}

#[test]
fn anilist_test_staff_to_person() {
    check_staff_to_person();
}

#[test]
fn mod_test_staff_to_person() {
    check_staff_to_person();
}

fn check_date_formatting() {
    let full = AniListDate { year: Some(2022), month: Some(4), day: Some(1) };
    assert_eq!(full.to_date_string().as_deref(), Some("2022-04-01"));
    let partial = AniListDate { year: Some(2022), month: Some(4), day: None };
    assert_eq!(partial.to_date_string().as_deref(), Some("2022-04"));
    let year_only = AniListDate { year: Some(2022), month: None, day: None };
    assert_eq!(year_only.to_date_string().as_deref(), Some("2022"));
    let empty = AniListDate { year: None, month: None, day: None };
    assert_eq!(empty.to_date_string(), None);
}

#[test]
fn anilist_test_date_formatting() {
    check_date_formatting();
}

#[test]
fn mod_test_date_formatting() {
    check_date_formatting();
}

fn check_from_anilist_genre() {
    assert_eq!(Genre::from_anilist_genre("Mecha"), Genre::Mecha);
    assert_eq!(Genre::from_anilist_genre("Mahou Shoujo"), Genre::MahouShoujo);
    assert_eq!(Genre::from_anilist_genre("Slice of Life"), Genre::SliceOfLife);
    assert_eq!(Genre::from_anilist_genre("Sports"), Genre::Sports);
    assert_eq!(Genre::from_anilist_genre("Supernatural"), Genre::Supernatural);
    assert_eq!(Genre::from_anilist_genre("Ecchi"), Genre::Ecchi);
    assert_eq!(Genre::from_anilist_genre("Sci-Fi"), Genre::ScienceFiction);
    assert!(matches!(Genre::from_anilist_genre("Isekai"), Genre::Other(_)));
}

#[test]
fn anilist_test_from_anilist_genre() {
    check_from_anilist_genre();
}

#[test]
fn mod_test_from_anilist_genre() {
    check_from_anilist_genre();
}

#[test]
fn gender_mapping() {
    assert_eq!(map_gender("Female"), 1);
    assert_eq!(map_gender("Male"), 2);
    assert_eq!(map_gender("Non-binary"), 3);
    assert_eq!(map_gender("Unknown"), 0);
}

#[test]
fn gender_mapping_is_case_sensitive() {
    assert_eq!(map_gender("female"), 0);
    assert_eq!(map_gender(""), 0);
}

#[test]
fn normalize_occupation_known() {
    assert_eq!(normalize_occupation("Voice Actor"), "Voice Acting");
    assert_eq!(normalize_occupation("voice actress"), "Voice Acting");
    assert_eq!(normalize_occupation("Director"), "Directing");
    assert_eq!(normalize_occupation("music"), "Music");
    assert_eq!(normalize_occupation("Composer"), "Music");
}

#[test]
fn normalize_occupation_unknown_passthrough() {
    assert_eq!(normalize_occupation("Storyboard"), "Storyboard");
    assert_eq!(normalize_occupation("Producer"), "Producer");
}

#[test]
fn normalize_occupation_other_departments_and_idempotence() {
    assert_eq!(normalize_occupation("ANIMATOR"), "Animation");
    assert_eq!(normalize_occupation("Animation Director"), "Animation");
    assert_eq!(normalize_occupation("Character Design"), "Art");
    for occ in ["Voice Actor", "Director", "Composer", "Animator", "Character Design", "Storyboard"] {
        let once = normalize_occupation(occ);
        assert_eq!(normalize_occupation(&once), once);
    }
}

#[test]
fn country_languages() {
    assert_eq!(country_to_language("JP"), "ja");
    assert_eq!(country_to_language("CN"), "zh");
    assert_eq!(country_to_language("KR"), "ko");
    assert_eq!(country_to_language("TW"), "zh");
    assert_eq!(country_to_language("FR"), "FR");
}

#[test]
fn title_and_cover_fallbacks() {
    let mut m = make_media(5, "TV");
    assert_eq!(resolve_title(&m), "English Title");
    m.title = Some(AniListTitle { romaji: Some("Romaji".to_string()), english: None, native: None });
    assert_eq!(resolve_title(&m), "Romaji");
    m.title = None;
    assert_eq!(resolve_title(&m), "");
    m.cover_image = Some(AniListCoverImage { large: Some("L".to_string()), extra_large: None });
    assert_eq!(resolve_cover(&m).as_deref(), Some("L"));
    m.cover_image = None;
    assert_eq!(resolve_cover(&m), None);
}

#[test]
fn genres_keep_unknown_names_lower_cased() {
    let g = map_genres(&Some(vec!["Isekai".to_string(), "Drama".to_string()]));
    assert_eq!(g, vec![Genre::Other(UnknownGenre::Named("isekai".to_string())), Genre::Drama]);
    assert!(map_genres(&None).is_empty());
}

fn make_detail(format: &str) -> AniListMediaDetail {
    let m = make_media(7, format);
    AniListMediaDetail {
        id: m.id,
        title: m.title,
        description: m.description,
        start_date: m.start_date,
        end_date: Some(AniListDate { year: Some(2023), month: Some(12), day: Some(31) }),
        cover_image: m.cover_image,
        banner_image: m.banner_image,
        genres: m.genres,
        popularity: m.popularity,
        average_score: m.average_score,
        episodes: m.episodes,
        duration: m.duration,
        status: m.status,
        format: m.format,
        country_of_origin: m.country_of_origin,
        is_adult: Some(true),
        studios: Some(AniListStudios {
            nodes: vec![
                AniListStudio { name: Some("Studio A".to_string()) },
                AniListStudio { name: None },
            ],
        }),
        season: None,
        season_year: None,
        episodes_count: None,
    }
}

#[test]
fn detail_conversions() {
    let d = anilist_media_detail_to_movie_details(make_detail("MOVIE"));
    assert_eq!(d.movie.provider_id, "anilist:7");
    assert!(d.movie.adult);
    assert_eq!(d.runtime, Some(23));
    let t = anilist_media_detail_to_tv_details(make_detail("TV"));
    assert_eq!(t.show.provider_id, "anilist:7");
    assert_eq!(t.number_of_episodes, 24);
    assert_eq!(t.last_air_date.as_deref(), Some("2023-12-31"));
}

#[test]
fn staff_detail_conversion() {
    let s = AniListStaffDetail {
        id: 9,
        name: Some(AniListStaffName {
            full: Some("Full Name".to_string()),
            native: Some("ネイティブ".to_string()),
            alternative: vec!["Alt".to_string()],
        }),
        image: None,
        description: Some("bio".to_string()),
        primary_occupations: Some(vec!["Director".to_string()]),
        gender: Some("Female".to_string()),
        date_of_birth: Some(AniListDate { year: Some(1970), month: Some(1), day: Some(2) }),
        date_of_death: None,
        home_town: Some("Tokyo".to_string()),
        site_url: None,
        language: None,
    };
    let p = staff_detail_to_person_details(s);
    assert_eq!(p.person.provider_id, "anilist:staff:9");
    assert_eq!(p.person.gender, Some(1));
    assert_eq!(p.person.known_for_department.as_deref(), Some("Directing"));
    assert_eq!(p.birthday.as_deref(), Some("1970-01-02"));
    assert_eq!(p.deathday, None);
    assert_eq!(p.place_of_birth.as_deref(), Some("Tokyo"));
    assert_eq!(p.biography.as_deref(), Some("bio"));
}
