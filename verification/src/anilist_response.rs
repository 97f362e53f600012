//! The data of AniList GraphQL responses, as plain values.
use vstd::prelude::*;
use vstd::string::StringExecFns;

use crate::text::{push_zero_padded, zero_padded};

verus! {

/// A GraphQL error object returned by the AniList API.
#[derive(Debug, Clone)]
pub struct AniListGqlError {
    /// Human-readable error message.
    pub message: String,
    /// The HTTP-style status that AniList attaches to the error (404 for an
    /// entry that does not exist), when it gives one.
    pub status: Option<i32>,
}

/// Top-level GraphQL response wrapper.
#[derive(Debug)]
pub struct GraphQlResponse<T> {
    /// The `data` field, absent on failure.
    pub data: Option<T>,
    /// The `errors` field, absent on success.
    pub errors: Option<Vec<AniListGqlError>>,
}

/// AniList pagination info returned by `Page.pageInfo`.
#[derive(Debug, Clone)]
pub struct PageInfo {
    /// Total items across all pages.
    pub total: Option<i32>,
    /// Current page number (1-indexed).
    pub current_page: Option<i32>,
    /// Last available page number.
    pub last_page: Option<i32>,
    /// Whether there is a next page.
    pub has_next_page: bool,
    /// Results per page.
    pub per_page: Option<i32>,
}

/// Localized title for an AniList media entry.
#[derive(Debug, Clone)]
pub struct AniListTitle {
    /// Title romanized (transliterated from Japanese).
    pub romaji: Option<String>,
    /// Official English title.
    pub english: Option<String>,
    /// Title in the original script (e.g. Japanese kanji).
    pub native: Option<String>,
}

/// AniList fuzzy date (partial; fields may be absent).
#[derive(Debug, Clone, Copy, PartialEq, Eq, Structural)]
pub struct AniListDate {
    /// Year.
    pub year: Option<i32>,
    /// Month of the year.
    pub month: Option<i32>,
    /// Day of the month.
    pub day: Option<i32>,
}

/// The text of a fuzzy date: `YYYY-MM-DD`, `YYYY-MM` or `YYYY` depending on
/// which fields are present, each zero-padded; `None` without a year.
pub open spec fn date_text(d: AniListDate) -> Option<Seq<char>> {
    match (d.year, d.month, d.day) {
        (Some(y), Some(m), Some(dd)) => Some(
            zero_padded(y as int, 4) + "-"@ + zero_padded(m as int, 2) + "-"@ + zero_padded(dd as int, 2),
        ),
        (Some(y), Some(m), None) => Some(zero_padded(y as int, 4) + "-"@ + zero_padded(m as int, 2)),
        (Some(y), None, _) => Some(zero_padded(y as int, 4)),
        _ => None,
    }
}

/// The text of an optional string.
pub open spec fn opt_view(o: Option<String>) -> Option<Seq<char>> {
    match o {
        Some(s) => Some(s@),
        None => None,
    }
}

impl AniListDate {
    /// Format as `YYYY-MM-DD`, `YYYY-MM`, or `YYYY` depending on available fields.
    pub fn to_date_string(&self) -> (r: Option<String>)
        ensures
            opt_view(r) == date_text(*self),
    {
        match (self.year, self.month, self.day) {
            (Some(y), Some(m), Some(d)) => {
                let mut s = String::new();
                push_zero_padded(&mut s, y as i64, 4);
                s.append("-");
                push_zero_padded(&mut s, m as i64, 2);
                s.append("-");
                push_zero_padded(&mut s, d as i64, 2);
                Some(s)
            },
            (Some(y), Some(m), None) => {
                let mut s = String::new();
                push_zero_padded(&mut s, y as i64, 4);
                s.append("-");
                push_zero_padded(&mut s, m as i64, 2);
                Some(s)
            },
            (Some(y), None, _) => {
                let mut s = String::new();
                push_zero_padded(&mut s, y as i64, 4);
                Some(s)
            },
            _ => None,
        }
    }
}

/// Cover image URLs for a media entry.
#[derive(Debug, Clone)]
pub struct AniListCoverImage {
    /// Large cover image URL.
    pub large: Option<String>,
    /// Extra-large cover image URL (highest quality).
    pub extra_large: Option<String>,
}

/// An AniList studio.
#[derive(Debug, Clone)]
pub struct AniListStudio {
    /// Studio name.
    pub name: Option<String>,
}

/// A list of studios with their nodes.
#[derive(Debug, Clone)]
pub struct AniListStudios {
    /// The studios.
    pub nodes: Vec<AniListStudio>,
}

/// Core AniList media entry (anime) — used in list/search results.
#[derive(Debug, Clone)]
pub struct AniListMedia {
    /// AniList ID.
    pub id: i32,
    /// Titles.
    pub title: Option<AniListTitle>,
    /// Synopsis (HTML stripped if `asHtml: false` in query).
    pub description: Option<String>,
    /// Start date.
    pub start_date: Option<AniListDate>,
    /// Cover images.
    pub cover_image: Option<AniListCoverImage>,
    /// Banner image URL.
    pub banner_image: Option<String>,
    /// Genre names.
    pub genres: Option<Vec<String>>,
    /// Popularity (number of users with the entry on their list).
    pub popularity: Option<i32>,
    /// Score from 0–100.
    pub average_score: Option<i32>,
    /// Number of episodes (TV) or null (movies).
    pub episodes: Option<i32>,
    /// Episode duration in minutes.
    pub duration: Option<i32>,
    /// Release status: `FINISHED`, `RELEASING`, `NOT_YET_RELEASED`, `CANCELLED`.
    pub status: Option<String>,
    /// Media format: `TV`, `TV_SHORT`, `MOVIE`, `OVA`, `ONA`, `SPECIAL`, etc.
    pub format: Option<String>,
    /// ISO 3166-1 alpha-2 country of origin.
    pub country_of_origin: Option<String>,
    /// Whether the entry is adult content.
    pub is_adult: Option<bool>,
}

/// Extended AniList media entry — used in detail queries (includes studios, etc.).
#[derive(Debug, Clone)]
pub struct AniListMediaDetail {
    /// AniList ID.
    pub id: i32,
    /// Titles.
    pub title: Option<AniListTitle>,
    /// Synopsis.
    pub description: Option<String>,
    /// Start date.
    pub start_date: Option<AniListDate>,
    /// End date.
    pub end_date: Option<AniListDate>,
    /// Cover images.
    pub cover_image: Option<AniListCoverImage>,
    /// Banner image URL.
    pub banner_image: Option<String>,
    /// Genre names.
    pub genres: Option<Vec<String>>,
    /// Popularity.
    pub popularity: Option<i32>,
    /// Score from 0–100.
    pub average_score: Option<i32>,
    /// Number of episodes.
    pub episodes: Option<i32>,
    /// Episode duration in minutes.
    pub duration: Option<i32>,
    /// Release status.
    pub status: Option<String>,
    /// Media format.
    pub format: Option<String>,
    /// ISO 3166-1 alpha-2 country of origin.
    pub country_of_origin: Option<String>,
    /// Whether the entry is adult content.
    pub is_adult: Option<bool>,
    /// Main production studios.
    pub studios: Option<AniListStudios>,
    /// Broadcast season (WINTER, SPRING, SUMMER, FALL).
    pub season: Option<String>,
    /// Year of the broadcast season.
    pub season_year: Option<i32>,
    /// Number of episodes in the series (TV-specific).
    pub episodes_count: Option<i32>,
}

/// `data` object for media list queries.
#[derive(Debug)]
pub struct MediaPageResponse {
    /// `Page` may be null in AniList error responses (e.g. rate-limited).
    pub page: Option<MediaPageData>,
}

/// The `Page` of a media list query.
#[derive(Debug)]
pub struct MediaPageData {
    /// Pagination info.
    pub page_info: PageInfo,
    /// The media on the page.
    pub media: Vec<AniListMedia>,
}

/// `data` object for single-media detail queries.
#[derive(Debug)]
pub struct MediaDetailResponse {
    /// The media.
    pub media: AniListMediaDetail,
}

/// Name object for an AniList staff member.
#[derive(Debug, Clone)]
pub struct AniListStaffName {
    /// Full name.
    pub full: Option<String>,
    /// Name in the native script.
    pub native: Option<String>,
    /// Alternative names.
    pub alternative: Vec<String>,
}

/// Image object for a staff member.
#[derive(Debug, Clone)]
pub struct AniListStaffImage {
    /// Large image URL.
    pub large: Option<String>,
}

/// AniList staff member (real person — voice actor, director, etc.).
#[derive(Debug, Clone)]
pub struct AniListStaff {
    /// AniList staff ID.
    pub id: i32,
    /// Names.
    pub name: Option<AniListStaffName>,
    /// Image.
    pub image: Option<AniListStaffImage>,
    /// Description.
    pub description: Option<String>,
    /// Primary occupations (e.g. `["Voice Actor", "Director"]`).
    pub primary_occupations: Option<Vec<String>>,
    /// Native language of the staff member (e.g. `"Japanese"`).
    pub language: Option<String>,
}

/// Extended staff info returned by detail queries.
#[derive(Debug, Clone)]
pub struct AniListStaffDetail {
    /// AniList staff ID.
    pub id: i32,
    /// Names.
    pub name: Option<AniListStaffName>,
    /// Image.
    pub image: Option<AniListStaffImage>,
    /// Description.
    pub description: Option<String>,
    /// Primary occupations.
    pub primary_occupations: Option<Vec<String>>,
    /// Gender text.
    pub gender: Option<String>,
    /// Date of birth.
    pub date_of_birth: Option<AniListDate>,
    /// Date of death.
    pub date_of_death: Option<AniListDate>,
    /// Home town.
    pub home_town: Option<String>,
    /// AniList page URL.
    pub site_url: Option<String>,
    /// Native language.
    pub language: Option<String>,
}

/// `data` object for staff list queries.
#[derive(Debug)]
pub struct StaffPageResponse {
    /// `Page` may be null in AniList error responses (e.g. rate-limited).
    pub page: Option<StaffPageData>,
}

/// The `Page` of a staff list query.
#[derive(Debug)]
pub struct StaffPageData {
    /// Pagination info.
    pub page_info: PageInfo,
    /// The staff on the page.
    pub staff: Vec<AniListStaff>,
}

/// `data` object for single-staff detail queries.
#[derive(Debug)]
pub struct StaffDetailResponse {
    /// The staff member.
    pub staff: AniListStaffDetail,
}

} // verus!
