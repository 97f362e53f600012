//! Canonical genres across providers and their mappings from provider data.
use vstd::prelude::*;

use crate::text::{eq_text, owned, to_lowercase};

verus! {

/// An unknown genre that could not be mapped to a known variant.
#[derive(Debug, Clone, PartialEq, Eq, Hash)]
pub enum UnknownGenre {
    /// A genre identified by name (e.g. from a provider's genre list).
    Named(String),
    /// A genre identified by a TMDB genre ID that is not in this enum.
    TmdbId(u32),
}

/// A canonical genre covering all known TMDB movie and TV genres, plus anime-specific genres.
///
/// Use [`Genre::from_tmdb_id`], [`Genre::from_name`], or [`Genre::from_anilist_genre`] to
/// convert provider data. Unknown genres are wrapped in [`Genre::Other`].
#[derive(Debug, Clone, PartialEq, Eq, Hash)]
pub enum Genre {
    /// TMDB ID 28 — Action
    Action,
    /// TMDB ID 12 — Adventure
    Adventure,
    /// TMDB ID 14 — Fantasy
    Fantasy,
    /// TMDB ID 36 — History
    History,
    /// TMDB ID 27 — Horror
    Horror,
    /// TMDB ID 10402 — Music
    Music,
    /// TMDB ID 10749 — Romance
    Romance,
    /// TMDB ID 878 — Science Fiction
    ScienceFiction,
    /// TMDB ID 53 — Thriller
    Thriller,
    /// TMDB ID 10770 — TV Movie
    TvMovie,
    /// TMDB ID 10752 — War
    War,
    /// TMDB ID 10759 — Action & Adventure (TV)
    ActionAdventure,
    /// TMDB ID 10762 — Kids (TV)
    Kids,
    /// TMDB ID 10763 — News (TV)
    News,
    /// TMDB ID 10764 — Reality (TV)
    Reality,
    /// TMDB ID 10765 — Sci-Fi & Fantasy (TV)
    SciFiFantasy,
    /// TMDB ID 10766 — Soap (TV)
    Soap,
    /// TMDB ID 10767 — Talk (TV)
    Talk,
    /// TMDB ID 10768 — War & Politics (TV)
    WarPolitics,
    /// TMDB ID 16 — Animation
    Animation,
    /// TMDB ID 35 — Comedy
    Comedy,
    /// TMDB ID 80 — Crime
    Crime,
    /// TMDB ID 99 — Documentary
    Documentary,
    /// TMDB ID 18 — Drama
    Drama,
    /// TMDB ID 10751 — Family
    Family,
    /// TMDB ID 9648 — Mystery
    Mystery,
    /// TMDB ID 37 — Western
    Western,
    /// Mecha — giant robot / mechanical suit anime.
    Mecha,
    /// Mahou Shoujo — magical girl anime.
    MahouShoujo,
    /// Slice of Life — everyday life stories.
    SliceOfLife,
    /// Sports — competitive athletics as the central theme.
    Sports,
    /// Supernatural — ghosts, demons, divine powers, and the occult.
    Supernatural,
    /// Ecchi — suggestive, mildly sexual content.
    Ecchi,
    /// A genre not covered by the known variants.
    Other(UnknownGenre),
}

/// The known genre for a TMDB genre ID, if the ID is one of the official ones.
pub open spec fn known_tmdb_genre(id: int) -> Option<Genre> {
    if id == 28 { Some(Genre::Action) }
    else if id == 12 { Some(Genre::Adventure) }
    else if id == 14 { Some(Genre::Fantasy) }
    else if id == 36 { Some(Genre::History) }
    else if id == 27 { Some(Genre::Horror) }
    else if id == 10402 { Some(Genre::Music) }
    else if id == 10749 { Some(Genre::Romance) }
    else if id == 878 { Some(Genre::ScienceFiction) }
    else if id == 53 { Some(Genre::Thriller) }
    else if id == 10770 { Some(Genre::TvMovie) }
    else if id == 10752 { Some(Genre::War) }
    else if id == 10759 { Some(Genre::ActionAdventure) }
    else if id == 10762 { Some(Genre::Kids) }
    else if id == 10763 { Some(Genre::News) }
    else if id == 10764 { Some(Genre::Reality) }
    else if id == 10765 { Some(Genre::SciFiFantasy) }
    else if id == 10766 { Some(Genre::Soap) }
    else if id == 10767 { Some(Genre::Talk) }
    else if id == 10768 { Some(Genre::WarPolitics) }
    else if id == 16 { Some(Genre::Animation) }
    else if id == 35 { Some(Genre::Comedy) }
    else if id == 80 { Some(Genre::Crime) }
    else if id == 99 { Some(Genre::Documentary) }
    else if id == 18 { Some(Genre::Drama) }
    else if id == 10751 { Some(Genre::Family) }
    else if id == 9648 { Some(Genre::Mystery) }
    else if id == 37 { Some(Genre::Western) }
    else { None }
}

/// The TMDB genre ID recorded for an unknown ID: negative IDs become 0 and the
/// rest is cut to 32 bits, as `as u32` does.
pub open spec fn unknown_tmdb_id(id: i64) -> u32 {
    (if id < 0 { 0i64 } else { id }) as u32
}

/// The known genre for a lower-cased genre name (TMDB names and anime genres).
pub open spec fn known_genre_name(lower: Seq<char>) -> Option<Genre> {
    if lower == "action"@ { Some(Genre::Action) }
    else if lower == "adventure"@ { Some(Genre::Adventure) }
    else if lower == "fantasy"@ { Some(Genre::Fantasy) }
    else if lower == "history"@ { Some(Genre::History) }
    else if lower == "horror"@ { Some(Genre::Horror) }
    else if lower == "music"@ { Some(Genre::Music) }
    else if lower == "romance"@ { Some(Genre::Romance) }
    else if lower == "science fiction"@ { Some(Genre::ScienceFiction) }
    else if lower == "thriller"@ { Some(Genre::Thriller) }
    else if lower == "tv movie"@ { Some(Genre::TvMovie) }
    else if lower == "war"@ { Some(Genre::War) }
    else if lower == "action & adventure"@ { Some(Genre::ActionAdventure) }
    else if lower == "kids"@ { Some(Genre::Kids) }
    else if lower == "news"@ { Some(Genre::News) }
    else if lower == "reality"@ { Some(Genre::Reality) }
    else if lower == "sci-fi & fantasy"@ { Some(Genre::SciFiFantasy) }
    else if lower == "soap"@ { Some(Genre::Soap) }
    else if lower == "talk"@ { Some(Genre::Talk) }
    else if lower == "war & politics"@ { Some(Genre::WarPolitics) }
    else if lower == "animation"@ { Some(Genre::Animation) }
    else if lower == "comedy"@ { Some(Genre::Comedy) }
    else if lower == "crime"@ { Some(Genre::Crime) }
    else if lower == "documentary"@ { Some(Genre::Documentary) }
    else if lower == "drama"@ { Some(Genre::Drama) }
    else if lower == "family"@ { Some(Genre::Family) }
    else if lower == "mystery"@ { Some(Genre::Mystery) }
    else if lower == "western"@ { Some(Genre::Western) }
    else if lower == "mecha"@ { Some(Genre::Mecha) }
    else if lower == "mahou shoujo"@ { Some(Genre::MahouShoujo) }
    else if lower == "slice of life"@ { Some(Genre::SliceOfLife) }
    else if lower == "sports"@ { Some(Genre::Sports) }
    else if lower == "supernatural"@ { Some(Genre::Supernatural) }
    else if lower == "ecchi"@ { Some(Genre::Ecchi) }
    else { None }
}

/// The known genre for a lower-cased AniList genre name.
pub open spec fn known_anilist_genre(lower: Seq<char>) -> Option<Genre> {
    if lower == "action"@ { Some(Genre::Action) }
    else if lower == "adventure"@ { Some(Genre::Adventure) }
    else if lower == "comedy"@ { Some(Genre::Comedy) }
    else if lower == "drama"@ { Some(Genre::Drama) }
    else if lower == "ecchi"@ { Some(Genre::Ecchi) }
    else if lower == "fantasy"@ { Some(Genre::Fantasy) }
    else if lower == "horror"@ { Some(Genre::Horror) }
    else if lower == "mahou shoujo"@ { Some(Genre::MahouShoujo) }
    else if lower == "mecha"@ { Some(Genre::Mecha) }
    else if lower == "music"@ { Some(Genre::Music) }
    else if lower == "mystery"@ { Some(Genre::Mystery) }
    else if lower == "romance"@ { Some(Genre::Romance) }
    else if lower == "sci-fi"@ { Some(Genre::ScienceFiction) }
    else if lower == "slice of life"@ { Some(Genre::SliceOfLife) }
    else if lower == "sports"@ { Some(Genre::Sports) }
    else if lower == "supernatural"@ { Some(Genre::Supernatural) }
    else if lower == "thriller"@ { Some(Genre::Thriller) }
    else { None }
}

/// The result of a name lookup: the known genre, or the lower-cased name kept
/// as an unknown genre.
pub open spec fn genre_for_lowered(g: Genre, lower: Seq<char>, known: Option<Genre>) -> bool {
    match known {
        Some(k) => g == k,
        None => g matches Genre::Other(UnknownGenre::Named(s)) && s@ == lower,
    }
}

/// The display name of a genre.
pub open spec fn genre_name(g: Genre) -> Seq<char> {
    match g {
        Genre::Action => "Action"@,
        Genre::Adventure => "Adventure"@,
        Genre::Fantasy => "Fantasy"@,
        Genre::History => "History"@,
        Genre::Horror => "Horror"@,
        Genre::Music => "Music"@,
        Genre::Romance => "Romance"@,
        Genre::ScienceFiction => "Science Fiction"@,
        Genre::Thriller => "Thriller"@,
        Genre::TvMovie => "TV Movie"@,
        Genre::War => "War"@,
        Genre::ActionAdventure => "Action & Adventure"@,
        Genre::Kids => "Kids"@,
        Genre::News => "News"@,
        Genre::Reality => "Reality"@,
        Genre::SciFiFantasy => "Sci-Fi & Fantasy"@,
        Genre::Soap => "Soap"@,
        Genre::Talk => "Talk"@,
        Genre::WarPolitics => "War & Politics"@,
        Genre::Animation => "Animation"@,
        Genre::Comedy => "Comedy"@,
        Genre::Crime => "Crime"@,
        Genre::Documentary => "Documentary"@,
        Genre::Drama => "Drama"@,
        Genre::Family => "Family"@,
        Genre::Mystery => "Mystery"@,
        Genre::Western => "Western"@,
        Genre::Mecha => "Mecha"@,
        Genre::MahouShoujo => "Mahou Shoujo"@,
        Genre::SliceOfLife => "Slice of Life"@,
        Genre::Sports => "Sports"@,
        Genre::Supernatural => "Supernatural"@,
        Genre::Ecchi => "Ecchi"@,
        Genre::Other(UnknownGenre::Named(s)) => s@,
        Genre::Other(UnknownGenre::TmdbId(_)) => "Unknown"@,
    }
}

impl Genre {
    /// Convert a TMDB genre ID to a [`Genre`].
    ///
    /// Returns `Genre::Other(UnknownGenre::TmdbId(id))` for unknown IDs.
    pub fn from_tmdb_id(id: i64) -> (g: Genre)
        ensures
            match known_tmdb_genre(id as int) {
                Some(k) => g == k,
                None => g == Genre::Other(UnknownGenre::TmdbId(unknown_tmdb_id(id))),
            },
    {
        if id == 28 {
            Genre::Action
        } else if id == 12 {
            Genre::Adventure
        } else if id == 14 {
            Genre::Fantasy
        } else if id == 36 {
            Genre::History
        } else if id == 27 {
            Genre::Horror
        } else if id == 10402 {
            Genre::Music
        } else if id == 10749 {
            Genre::Romance
        } else if id == 878 {
            Genre::ScienceFiction
        } else if id == 53 {
            Genre::Thriller
        } else if id == 10770 {
            Genre::TvMovie
        } else if id == 10752 {
            Genre::War
        } else if id == 10759 {
            Genre::ActionAdventure
        } else if id == 10762 {
            Genre::Kids
        } else if id == 10763 {
            Genre::News
        } else if id == 10764 {
            Genre::Reality
        } else if id == 10765 {
            Genre::SciFiFantasy
        } else if id == 10766 {
            Genre::Soap
        } else if id == 10767 {
            Genre::Talk
        } else if id == 10768 {
            Genre::WarPolitics
        } else if id == 16 {
            Genre::Animation
        } else if id == 35 {
            Genre::Comedy
        } else if id == 80 {
            Genre::Crime
        } else if id == 99 {
            Genre::Documentary
        } else if id == 18 {
            Genre::Drama
        } else if id == 10751 {
            Genre::Family
        } else if id == 9648 {
            Genre::Mystery
        } else if id == 37 {
            Genre::Western
        } else {
            let clamped: i64 = if id < 0 { 0 } else { id };
            Genre::Other(UnknownGenre::TmdbId(#[verifier::truncate] (clamped as u32)))
        }
    }

    /// Convert a genre name string to a [`Genre`] (case-insensitive).
    ///
    /// Returns `Genre::Other(UnknownGenre::Named(s))`, `s` lower-cased, for
    /// unrecognized names.
    pub fn from_name(name: &str) -> (g: Genre)
        ensures
            genre_for_lowered(g, crate::text::lowercase(name@),
                known_genre_name(crate::text::lowercase(name@))),
    {
        let lower = to_lowercase(name);
        if eq_text(&lower, "action") {
            Genre::Action
        } else if eq_text(&lower, "adventure") {
            Genre::Adventure
        } else if eq_text(&lower, "fantasy") {
            Genre::Fantasy
        } else if eq_text(&lower, "history") {
            Genre::History
        } else if eq_text(&lower, "horror") {
            Genre::Horror
        } else if eq_text(&lower, "music") {
            Genre::Music
        } else if eq_text(&lower, "romance") {
            Genre::Romance
        } else if eq_text(&lower, "science fiction") {
            Genre::ScienceFiction
        } else if eq_text(&lower, "thriller") {
            Genre::Thriller
        } else if eq_text(&lower, "tv movie") {
            Genre::TvMovie
        } else if eq_text(&lower, "war") {
            Genre::War
        } else if eq_text(&lower, "action & adventure") {
            Genre::ActionAdventure
        } else if eq_text(&lower, "kids") {
            Genre::Kids
        } else if eq_text(&lower, "news") {
            Genre::News
        } else if eq_text(&lower, "reality") {
            Genre::Reality
        } else if eq_text(&lower, "sci-fi & fantasy") {
            Genre::SciFiFantasy
        } else if eq_text(&lower, "soap") {
            Genre::Soap
        } else if eq_text(&lower, "talk") {
            Genre::Talk
        } else if eq_text(&lower, "war & politics") {
            Genre::WarPolitics
        } else if eq_text(&lower, "animation") {
            Genre::Animation
        } else if eq_text(&lower, "comedy") {
            Genre::Comedy
        } else if eq_text(&lower, "crime") {
            Genre::Crime
        } else if eq_text(&lower, "documentary") {
            Genre::Documentary
        } else if eq_text(&lower, "drama") {
            Genre::Drama
        } else if eq_text(&lower, "family") {
            Genre::Family
        } else if eq_text(&lower, "mystery") {
            Genre::Mystery
        } else if eq_text(&lower, "western") {
            Genre::Western
        } else if eq_text(&lower, "mecha") {
            Genre::Mecha
        } else if eq_text(&lower, "mahou shoujo") {
            Genre::MahouShoujo
        } else if eq_text(&lower, "slice of life") {
            Genre::SliceOfLife
        } else if eq_text(&lower, "sports") {
            Genre::Sports
        } else if eq_text(&lower, "supernatural") {
            Genre::Supernatural
        } else if eq_text(&lower, "ecchi") {
            Genre::Ecchi
        } else {
            Genre::Other(UnknownGenre::Named(lower))
        }
    }

    /// Convert an AniList genre name string to a [`Genre`] (case-insensitive).
    ///
    /// Handles AniList-specific genre names in addition to common genre names.
    /// Returns `Genre::Other(UnknownGenre::Named(s))`, `s` lower-cased, for
    /// unrecognized names.
    pub fn from_anilist_genre(name: &str) -> (g: Genre)
        ensures
            genre_for_lowered(g, crate::text::lowercase(name@),
                known_anilist_genre(crate::text::lowercase(name@))),
    {
        let lower = to_lowercase(name);
        if eq_text(&lower, "action") {
            Genre::Action
        } else if eq_text(&lower, "adventure") {
            Genre::Adventure
        } else if eq_text(&lower, "comedy") {
            Genre::Comedy
        } else if eq_text(&lower, "drama") {
            Genre::Drama
        } else if eq_text(&lower, "ecchi") {
            Genre::Ecchi
        } else if eq_text(&lower, "fantasy") {
            Genre::Fantasy
        } else if eq_text(&lower, "horror") {
            Genre::Horror
        } else if eq_text(&lower, "mahou shoujo") {
            Genre::MahouShoujo
        } else if eq_text(&lower, "mecha") {
            Genre::Mecha
        } else if eq_text(&lower, "music") {
            Genre::Music
        } else if eq_text(&lower, "mystery") {
            Genre::Mystery
        } else if eq_text(&lower, "romance") {
            Genre::Romance
        } else if eq_text(&lower, "sci-fi") {
            Genre::ScienceFiction
        } else if eq_text(&lower, "slice of life") {
            Genre::SliceOfLife
        } else if eq_text(&lower, "sports") {
            Genre::Sports
        } else if eq_text(&lower, "supernatural") {
            Genre::Supernatural
        } else if eq_text(&lower, "thriller") {
            Genre::Thriller
        } else {
            Genre::Other(UnknownGenre::Named(lower))
        }
    }

    /// Returns a human-readable display name for this genre.
    pub fn name(&self) -> (r: &str)
        ensures
            r@ == genre_name(*self),
    {
        match self {
            Genre::Action => "Action",
            Genre::Adventure => "Adventure",
            Genre::Fantasy => "Fantasy",
            Genre::History => "History",
            Genre::Horror => "Horror",
            Genre::Music => "Music",
            Genre::Romance => "Romance",
            Genre::ScienceFiction => "Science Fiction",
            Genre::Thriller => "Thriller",
            Genre::TvMovie => "TV Movie",
            Genre::War => "War",
            Genre::ActionAdventure => "Action & Adventure",
            Genre::Kids => "Kids",
            Genre::News => "News",
            Genre::Reality => "Reality",
            Genre::SciFiFantasy => "Sci-Fi & Fantasy",
            Genre::Soap => "Soap",
            Genre::Talk => "Talk",
            Genre::WarPolitics => "War & Politics",
            Genre::Animation => "Animation",
            Genre::Comedy => "Comedy",
            Genre::Crime => "Crime",
            Genre::Documentary => "Documentary",
            Genre::Drama => "Drama",
            Genre::Family => "Family",
            Genre::Mystery => "Mystery",
            Genre::Western => "Western",
            Genre::Mecha => "Mecha",
            Genre::MahouShoujo => "Mahou Shoujo",
            Genre::SliceOfLife => "Slice of Life",
            Genre::Sports => "Sports",
            Genre::Supernatural => "Supernatural",
            Genre::Ecchi => "Ecchi",
            Genre::Other(UnknownGenre::Named(s)) => s.as_str(),
            Genre::Other(UnknownGenre::TmdbId(_)) => "Unknown",
        }
    }

    /// The display name as an owned string (what `Display` prints).
    pub fn to_display_string(&self) -> (r: String)
        ensures
            r@ == genre_name(*self),
    {
        owned(self.name())
    }
}

} // verus!
