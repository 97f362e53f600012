use cameo::genre::{Genre, UnknownGenre};

#[test]
fn from_anilist_genre_common() {
    assert_eq!(Genre::from_anilist_genre("Action"), Genre::Action);
    assert_eq!(Genre::from_anilist_genre("adventure"), Genre::Adventure);
    assert_eq!(Genre::from_anilist_genre("Comedy"), Genre::Comedy);
    assert_eq!(Genre::from_anilist_genre("Drama"), Genre::Drama);
    assert_eq!(Genre::from_anilist_genre("Fantasy"), Genre::Fantasy);
    assert_eq!(Genre::from_anilist_genre("Horror"), Genre::Horror);
    assert_eq!(Genre::from_anilist_genre("Music"), Genre::Music);
    assert_eq!(Genre::from_anilist_genre("Mystery"), Genre::Mystery);
    assert_eq!(Genre::from_anilist_genre("Romance"), Genre::Romance);
    assert_eq!(Genre::from_anilist_genre("Sci-Fi"), Genre::ScienceFiction);
    assert_eq!(Genre::from_anilist_genre("Thriller"), Genre::Thriller);
}

#[test]
fn from_anilist_genre_anime_specific() {
    assert_eq!(Genre::from_anilist_genre("Mecha"), Genre::Mecha);
    assert_eq!(Genre::from_anilist_genre("Mahou Shoujo"), Genre::MahouShoujo);
    assert_eq!(Genre::from_anilist_genre("Slice of Life"), Genre::SliceOfLife);
    assert_eq!(Genre::from_anilist_genre("Sports"), Genre::Sports);
    assert_eq!(Genre::from_anilist_genre("Supernatural"), Genre::Supernatural);
    assert_eq!(Genre::from_anilist_genre("Ecchi"), Genre::Ecchi);
}

#[test]
fn from_anilist_genre_fallback() {
    assert_eq!(
        Genre::from_anilist_genre("Isekai"),
        Genre::Other(UnknownGenre::Named("isekai".to_string()))
    );
    assert_eq!(
        Genre::from_anilist_genre("Harem"),
        Genre::Other(UnknownGenre::Named("harem".to_string()))
    );
}

#[test]
fn from_tmdb_id_unknown() {
    assert_eq!(Genre::from_tmdb_id(99999), Genre::Other(UnknownGenre::TmdbId(99999)));
    assert_eq!(Genre::from_tmdb_id(0), Genre::Other(UnknownGenre::TmdbId(0)));
}

#[test]
fn name_anime_specific() {
    assert_eq!(Genre::Mecha.name(), "Mecha");
    assert_eq!(Genre::MahouShoujo.name(), "Mahou Shoujo");
    assert_eq!(Genre::SliceOfLife.name(), "Slice of Life");
    assert_eq!(Genre::Sports.name(), "Sports");
    assert_eq!(Genre::Supernatural.name(), "Supernatural");
    assert_eq!(Genre::Ecchi.name(), "Ecchi");
}

#[test]
fn from_tmdb_id_known_and_negative() {
    assert_eq!(Genre::from_tmdb_id(28), Genre::Action);
    assert_eq!(Genre::from_tmdb_id(10765), Genre::SciFiFantasy);
    assert_eq!(Genre::from_tmdb_id(37), Genre::Western);
    assert_eq!(Genre::from_tmdb_id(-5), Genre::Other(UnknownGenre::TmdbId(0)));
    assert_eq!(Genre::from_tmdb_id(4294967296 + 7), Genre::Other(UnknownGenre::TmdbId(7)));
}

#[test]
fn from_name_is_case_insensitive() {
    assert_eq!(Genre::from_name("SCIENCE FICTION"), Genre::ScienceFiction);
    assert_eq!(Genre::from_name("war & Politics"), Genre::WarPolitics);
    assert_eq!(Genre::from_name("Sci-Fi"), Genre::Other(UnknownGenre::Named("sci-fi".to_string())));
}

#[test]
fn display_names_read_back() {
    let all = [
        Genre::Action, Genre::Adventure, Genre::Fantasy, Genre::History, Genre::Horror,
        Genre::Music, Genre::Romance, Genre::ScienceFiction, Genre::Thriller, Genre::TvMovie,
        Genre::War, Genre::ActionAdventure, Genre::Kids, Genre::News, Genre::Reality,
        Genre::SciFiFantasy, Genre::Soap, Genre::Talk, Genre::WarPolitics, Genre::Animation,
        Genre::Comedy, Genre::Crime, Genre::Documentary, Genre::Drama, Genre::Family,
        Genre::Mystery, Genre::Western, Genre::Mecha, Genre::MahouShoujo, Genre::SliceOfLife,
        Genre::Sports, Genre::Supernatural, Genre::Ecchi,
    ];
    for g in all {
        assert_eq!(Genre::from_name(g.name()), g);
    }
}

#[test]
fn other_genre_names() {
    assert_eq!(Genre::Other(UnknownGenre::Named("isekai".to_string())).name(), "isekai");
    assert_eq!(Genre::Other(UnknownGenre::TmdbId(5)).name(), "Unknown");
    assert_eq!(Genre::TvMovie.to_display_string(), "TV Movie");
}
