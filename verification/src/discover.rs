//! The filters of TMDB's discover endpoints, built step by step. Dates are
//! held as day numbers (days since 1 January of year 1); the vote filters,
//! which are floating-point numbers, are kept by the application layer.
use vstd::prelude::*;

use crate::anilist_convert::clone_opt;
use crate::text::owned;
use crate::tmdb_config::TmdbConfig;

verus! {

/// The sort orders of the movie discover endpoint.
#[derive(Debug, Clone, Copy, PartialEq, Eq, Structural)]
pub enum DiscoverMovieSortBy {
    /// `original_title.asc`
    OriginalTitleAsc,
    /// `original_title.desc`
    OriginalTitleDesc,
    /// `popularity.asc`
    PopularityAsc,
    /// `popularity.desc`
    PopularityDesc,
    /// `revenue.asc`
    RevenueAsc,
    /// `revenue.desc`
    RevenueDesc,
    /// `primary_release_date.asc`
    PrimaryReleaseDateAsc,
    /// `primary_release_date.desc`
    PrimaryReleaseDateDesc,
    /// `title.asc`
    TitleAsc,
    /// `title.desc`
    TitleDesc,
    /// `vote_average.asc`
    VoteAverageAsc,
    /// `vote_average.desc`
    VoteAverageDesc,
    /// `vote_count.asc`
    VoteCountAsc,
    /// `vote_count.desc`
    VoteCountDesc,
}

/// The text of a movie sort order, as the endpoint takes it.
pub open spec fn discover_movie_sort_by_text(s: DiscoverMovieSortBy) -> Seq<char> {
    match s {
        DiscoverMovieSortBy::OriginalTitleAsc => "original_title.asc"@,
        DiscoverMovieSortBy::OriginalTitleDesc => "original_title.desc"@,
        DiscoverMovieSortBy::PopularityAsc => "popularity.asc"@,
        DiscoverMovieSortBy::PopularityDesc => "popularity.desc"@,
        DiscoverMovieSortBy::RevenueAsc => "revenue.asc"@,
        DiscoverMovieSortBy::RevenueDesc => "revenue.desc"@,
        DiscoverMovieSortBy::PrimaryReleaseDateAsc => "primary_release_date.asc"@,
        DiscoverMovieSortBy::PrimaryReleaseDateDesc => "primary_release_date.desc"@,
        DiscoverMovieSortBy::TitleAsc => "title.asc"@,
        DiscoverMovieSortBy::TitleDesc => "title.desc"@,
        DiscoverMovieSortBy::VoteAverageAsc => "vote_average.asc"@,
        DiscoverMovieSortBy::VoteAverageDesc => "vote_average.desc"@,
        DiscoverMovieSortBy::VoteCountAsc => "vote_count.asc"@,
        DiscoverMovieSortBy::VoteCountDesc => "vote_count.desc"@,
    }
}

impl DiscoverMovieSortBy {
    /// The text of this sort order, as the endpoint takes it.
    pub fn as_str(&self) -> (s: &'static str)
        ensures
            s@ == discover_movie_sort_by_text(*self),
    {
        match self {
            DiscoverMovieSortBy::OriginalTitleAsc => "original_title.asc",
            DiscoverMovieSortBy::OriginalTitleDesc => "original_title.desc",
            DiscoverMovieSortBy::PopularityAsc => "popularity.asc",
            DiscoverMovieSortBy::PopularityDesc => "popularity.desc",
            DiscoverMovieSortBy::RevenueAsc => "revenue.asc",
            DiscoverMovieSortBy::RevenueDesc => "revenue.desc",
            DiscoverMovieSortBy::PrimaryReleaseDateAsc => "primary_release_date.asc",
            DiscoverMovieSortBy::PrimaryReleaseDateDesc => "primary_release_date.desc",
            DiscoverMovieSortBy::TitleAsc => "title.asc",
            DiscoverMovieSortBy::TitleDesc => "title.desc",
            DiscoverMovieSortBy::VoteAverageAsc => "vote_average.asc",
            DiscoverMovieSortBy::VoteAverageDesc => "vote_average.desc",
            DiscoverMovieSortBy::VoteCountAsc => "vote_count.asc",
            DiscoverMovieSortBy::VoteCountDesc => "vote_count.desc",
        }
    }
}

/// The sort orders of the TV discover endpoint.
#[derive(Debug, Clone, Copy, PartialEq, Eq, Structural)]
pub enum DiscoverTvSortBy {
    /// `first_air_date.asc`
    FirstAirDateAsc,
    /// `first_air_date.desc`
    FirstAirDateDesc,
    /// `name.asc`
    NameAsc,
    /// `name.desc`
    NameDesc,
    /// `original_name.asc`
    OriginalNameAsc,
    /// `original_name.desc`
    OriginalNameDesc,
    /// `popularity.asc`
    PopularityAsc,
    /// `popularity.desc`
    PopularityDesc,
    /// `vote_average.asc`
    VoteAverageAsc,
    /// `vote_average.desc`
    VoteAverageDesc,
    /// `vote_count.asc`
    VoteCountAsc,
    /// `vote_count.desc`
    VoteCountDesc,
}

/// The text of a TV sort order, as the endpoint takes it.
pub open spec fn discover_tv_sort_by_text(s: DiscoverTvSortBy) -> Seq<char> {
    match s {
        DiscoverTvSortBy::FirstAirDateAsc => "first_air_date.asc"@,
        DiscoverTvSortBy::FirstAirDateDesc => "first_air_date.desc"@,
        DiscoverTvSortBy::NameAsc => "name.asc"@,
        DiscoverTvSortBy::NameDesc => "name.desc"@,
        DiscoverTvSortBy::OriginalNameAsc => "original_name.asc"@,
        DiscoverTvSortBy::OriginalNameDesc => "original_name.desc"@,
        DiscoverTvSortBy::PopularityAsc => "popularity.asc"@,
        DiscoverTvSortBy::PopularityDesc => "popularity.desc"@,
        DiscoverTvSortBy::VoteAverageAsc => "vote_average.asc"@,
        DiscoverTvSortBy::VoteAverageDesc => "vote_average.desc"@,
        DiscoverTvSortBy::VoteCountAsc => "vote_count.asc"@,
        DiscoverTvSortBy::VoteCountDesc => "vote_count.desc"@,
    }
}

impl DiscoverTvSortBy {
    /// The text of this sort order, as the endpoint takes it.
    pub fn as_str(&self) -> (s: &'static str)
        ensures
            s@ == discover_tv_sort_by_text(*self),
    {
        match self {
            DiscoverTvSortBy::FirstAirDateAsc => "first_air_date.asc",
            DiscoverTvSortBy::FirstAirDateDesc => "first_air_date.desc",
            DiscoverTvSortBy::NameAsc => "name.asc",
            DiscoverTvSortBy::NameDesc => "name.desc",
            DiscoverTvSortBy::OriginalNameAsc => "original_name.asc",
            DiscoverTvSortBy::OriginalNameDesc => "original_name.desc",
            DiscoverTvSortBy::PopularityAsc => "popularity.asc",
            DiscoverTvSortBy::PopularityDesc => "popularity.desc",
            DiscoverTvSortBy::VoteAverageAsc => "vote_average.asc",
            DiscoverTvSortBy::VoteAverageDesc => "vote_average.desc",
            DiscoverTvSortBy::VoteCountAsc => "vote_count.asc",
            DiscoverTvSortBy::VoteCountDesc => "vote_count.desc",
        }
    }
}

/// The filters of a movie discover query.
#[derive(Debug, Clone)]
pub struct DiscoverMoviesQuery {
    /// The `certification` filter.
    pub certification: Option<String>,
    /// The `certification_gte` filter.
    pub certification_gte: Option<String>,
    /// The `certification_lte` filter.
    pub certification_lte: Option<String>,
    /// The `certification_country` filter.
    pub certification_country: Option<String>,
    /// The `include_adult` filter.
    pub include_adult: Option<bool>,
    /// The `include_video` filter.
    pub include_video: Option<bool>,
    /// The `language` filter.
    pub language: Option<String>,
    /// The `page` filter.
    pub page: Option<i32>,
    /// `primary release date gte` as a day number (days since 1 January of year 1).
    pub primary_release_date_gte: Option<i32>,
    /// `primary release date lte` as a day number (days since 1 January of year 1).
    pub primary_release_date_lte: Option<i32>,
    /// The `primary_release_year` filter.
    pub primary_release_year: Option<i32>,
    /// The `region` filter.
    pub region: Option<String>,
    /// `release date gte` as a day number (days since 1 January of year 1).
    pub release_date_gte: Option<i32>,
    /// `release date lte` as a day number (days since 1 January of year 1).
    pub release_date_lte: Option<i32>,
    /// The `sort_by` filter.
    pub sort_by: Option<DiscoverMovieSortBy>,
    /// The `watch_region` filter.
    pub watch_region: Option<String>,
    /// The `with_cast` filter.
    pub with_cast: Option<String>,
    /// The `with_companies` filter.
    pub with_companies: Option<String>,
    /// The `with_crew` filter.
    pub with_crew: Option<String>,
    /// The `with_genres` filter.
    pub with_genres: Option<String>,
    /// The `with_keywords` filter.
    pub with_keywords: Option<String>,
    /// The `with_origin_country` filter.
    pub with_origin_country: Option<String>,
    /// The `with_original_language` filter.
    pub with_original_language: Option<String>,
    /// The `with_people` filter.
    pub with_people: Option<String>,
    /// The `with_release_type` filter.
    pub with_release_type: Option<i32>,
    /// The `with_runtime_gte` filter.
    pub with_runtime_gte: Option<i32>,
    /// The `with_runtime_lte` filter.
    pub with_runtime_lte: Option<i32>,
    /// The `with_watch_monetization_types` filter.
    pub with_watch_monetization_types: Option<String>,
    /// The `with_watch_providers` filter.
    pub with_watch_providers: Option<String>,
    /// The `without_companies` filter.
    pub without_companies: Option<String>,
    /// The `without_genres` filter.
    pub without_genres: Option<String>,
    /// The `without_keywords` filter.
    pub without_keywords: Option<String>,
    /// The `without_watch_providers` filter.
    pub without_watch_providers: Option<String>,
    /// The `year` filter.
    pub year: Option<i32>,
}

impl DiscoverMoviesQuery {
    /// A query with no filters but those that the client configuration
    /// gives: `include_adult`, `language`, `region`.
    pub fn new(cfg: &TmdbConfig) -> (q: Self)
        ensures
            q.certification is None,
            q.certification_gte is None,
            q.certification_lte is None,
            q.certification_country is None,
            q.include_adult == cfg.include_adult,
            q.include_video is None,
            q.language == cfg.language,
            q.page is None,
            q.primary_release_date_gte is None,
            q.primary_release_date_lte is None,
            q.primary_release_year is None,
            q.region == cfg.region,
            q.release_date_gte is None,
            q.release_date_lte is None,
            q.sort_by is None,
            q.watch_region is None,
            q.with_cast is None,
            q.with_companies is None,
            q.with_crew is None,
            q.with_genres is None,
            q.with_keywords is None,
            q.with_origin_country is None,
            q.with_original_language is None,
            q.with_people is None,
            q.with_release_type is None,
            q.with_runtime_gte is None,
            q.with_runtime_lte is None,
            q.with_watch_monetization_types is None,
            q.with_watch_providers is None,
            q.without_companies is None,
            q.without_genres is None,
            q.without_keywords is None,
            q.without_watch_providers is None,
            q.year is None,
    {
        DiscoverMoviesQuery {
            certification: None,
            certification_gte: None,
            certification_lte: None,
            certification_country: None,
            include_adult: cfg.include_adult,
            include_video: None,
            language: clone_opt(&cfg.language),
            page: None,
            primary_release_date_gte: None,
            primary_release_date_lte: None,
            primary_release_year: None,
            region: clone_opt(&cfg.region),
            release_date_gte: None,
            release_date_lte: None,
            sort_by: None,
            watch_region: None,
            with_cast: None,
            with_companies: None,
            with_crew: None,
            with_genres: None,
            with_keywords: None,
            with_origin_country: None,
            with_original_language: None,
            with_people: None,
            with_release_type: None,
            with_runtime_gte: None,
            with_runtime_lte: None,
            with_watch_monetization_types: None,
            with_watch_providers: None,
            without_companies: None,
            without_genres: None,
            without_keywords: None,
            without_watch_providers: None,
            year: None,
        }
    }

    /// Set the sort order.
    pub fn sort_by(self, sort_by: DiscoverMovieSortBy) -> (q: Self)
        ensures
            q == (DiscoverMoviesQuery { sort_by: Some(sort_by), ..self }),
    {
        DiscoverMoviesQuery { sort_by: Some(sort_by), ..self }
    }

    /// Filter by genre IDs: a comma-separated list of TMDB genre IDs (e.g. `"28,12"`); only items with all listed genres match.
    pub fn with_genres(self, genres: &str) -> (q: Self)
        ensures
            q.with_genres matches Some(v) && v@ == genres@,
            q == (DiscoverMoviesQuery { with_genres: q.with_genres, ..self }),
    {
        DiscoverMoviesQuery { with_genres: Some(owned(genres)), ..self }
    }

    /// Exclude genre IDs: a comma-separated list of TMDB genre IDs; items with any of them are left out.
    pub fn without_genres(self, genres: &str) -> (q: Self)
        ensures
            q.without_genres matches Some(v) && v@ == genres@,
            q == (DiscoverMoviesQuery { without_genres: q.without_genres, ..self }),
    {
        DiscoverMoviesQuery { without_genres: Some(owned(genres)), ..self }
    }

    /// Filter by primary release year.
    pub fn primary_release_year(self, year: i32) -> (q: Self)
        ensures
            q == (DiscoverMoviesQuery { primary_release_year: Some(year), ..self }),
    {
        DiscoverMoviesQuery { primary_release_year: Some(year), ..self }
    }

    /// Filter by release year.
    pub fn year(self, year: i32) -> (q: Self)
        ensures
            q == (DiscoverMoviesQuery { year: Some(year), ..self }),
    {
        DiscoverMoviesQuery { year: Some(year), ..self }
    }

    /// Primary release on or after the day with this day number (days since 1 January of year 1).
    pub fn primary_release_date_gte(self, day: i32) -> (q: Self)
        ensures
            q == (DiscoverMoviesQuery { primary_release_date_gte: Some(day), ..self }),
    {
        DiscoverMoviesQuery { primary_release_date_gte: Some(day), ..self }
    }

    /// Primary release on or before the day with this day number (days since 1 January of year 1).
    pub fn primary_release_date_lte(self, day: i32) -> (q: Self)
        ensures
            q == (DiscoverMoviesQuery { primary_release_date_lte: Some(day), ..self }),
    {
        DiscoverMoviesQuery { primary_release_date_lte: Some(day), ..self }
    }

    /// Filter by cast member IDs (comma-separated).
    pub fn with_cast(self, cast: &str) -> (q: Self)
        ensures
            q.with_cast matches Some(v) && v@ == cast@,
            q == (DiscoverMoviesQuery { with_cast: q.with_cast, ..self }),
    {
        DiscoverMoviesQuery { with_cast: Some(owned(cast)), ..self }
    }

    /// Filter by crew member IDs (comma-separated).
    pub fn with_crew(self, crew: &str) -> (q: Self)
        ensures
            q.with_crew matches Some(v) && v@ == crew@,
            q == (DiscoverMoviesQuery { with_crew: q.with_crew, ..self }),
    {
        DiscoverMoviesQuery { with_crew: Some(owned(crew)), ..self }
    }

    /// Filter by keyword IDs (comma-separated).
    pub fn with_keywords(self, keywords: &str) -> (q: Self)
        ensures
            q.with_keywords matches Some(v) && v@ == keywords@,
            q == (DiscoverMoviesQuery { with_keywords: q.with_keywords, ..self }),
    {
        DiscoverMoviesQuery { with_keywords: Some(owned(keywords)), ..self }
    }

    /// Filter by company IDs (comma-separated).
    pub fn with_companies(self, companies: &str) -> (q: Self)
        ensures
            q.with_companies matches Some(v) && v@ == companies@,
            q == (DiscoverMoviesQuery { with_companies: q.with_companies, ..self }),
    {
        DiscoverMoviesQuery { with_companies: Some(owned(companies)), ..self }
    }

    /// Filter by original language: an ISO 639-1 code (e.g. `"en"`).
    pub fn with_original_language(self, lang: &str) -> (q: Self)
        ensures
            q.with_original_language matches Some(v) && v@ == lang@,
            q == (DiscoverMoviesQuery { with_original_language: q.with_original_language, ..self }),
    {
        DiscoverMoviesQuery { with_original_language: Some(owned(lang)), ..self }
    }

    /// Filter by origin country: an ISO 3166-1 alpha-2 code (e.g. `"US"`).
    pub fn with_origin_country(self, country: &str) -> (q: Self)
        ensures
            q.with_origin_country matches Some(v) && v@ == country@,
            q == (DiscoverMoviesQuery { with_origin_country: q.with_origin_country, ..self }),
    {
        DiscoverMoviesQuery { with_origin_country: Some(owned(country)), ..self }
    }

    /// Minimum runtime in minutes.
    pub fn with_runtime_gte(self, min: i32) -> (q: Self)
        ensures
            q == (DiscoverMoviesQuery { with_runtime_gte: Some(min), ..self }),
    {
        DiscoverMoviesQuery { with_runtime_gte: Some(min), ..self }
    }

    /// Maximum runtime in minutes.
    pub fn with_runtime_lte(self, max: i32) -> (q: Self)
        ensures
            q == (DiscoverMoviesQuery { with_runtime_lte: Some(max), ..self }),
    {
        DiscoverMoviesQuery { with_runtime_lte: Some(max), ..self }
    }

    /// Set the page number.
    pub fn page(self, page: u32) -> (q: Self)
        ensures
            q == (DiscoverMoviesQuery { page: Some(page as i32), ..self }),
    {
        DiscoverMoviesQuery { page: Some(#[verifier::truncate] (page as i32)), ..self }
    }

    /// Include adult content.
    pub fn include_adult(self, adult: bool) -> (q: Self)
        ensures
            q == (DiscoverMoviesQuery { include_adult: Some(adult), ..self }),
    {
        DiscoverMoviesQuery { include_adult: Some(adult), ..self }
    }

    /// Certification country: an ISO 3166-1 alpha-2 code, needed when filtering by certification.
    pub fn certification_country(self, country: &str) -> (q: Self)
        ensures
            q.certification_country matches Some(v) && v@ == country@,
            q == (DiscoverMoviesQuery { certification_country: q.certification_country, ..self }),
    {
        DiscoverMoviesQuery { certification_country: Some(owned(country)), ..self }
    }

    /// Filter by exact certification rating (e.g. `"PG-13"`); needs the certification country.
    pub fn certification(self, cert: &str) -> (q: Self)
        ensures
            q.certification matches Some(v) && v@ == cert@,
            q == (DiscoverMoviesQuery { certification: q.certification, ..self }),
    {
        DiscoverMoviesQuery { certification: Some(owned(cert)), ..self }
    }
}

/// The filters of a TV discover query.
#[derive(Debug, Clone)]
pub struct DiscoverTvQuery {
    /// `air date gte` as a day number (days since 1 January of year 1).
    pub air_date_gte: Option<i32>,
    /// `air date lte` as a day number (days since 1 January of year 1).
    pub air_date_lte: Option<i32>,
    /// `first air date gte` as a day number (days since 1 January of year 1).
    pub first_air_date_gte: Option<i32>,
    /// `first air date lte` as a day number (days since 1 January of year 1).
    pub first_air_date_lte: Option<i32>,
    /// The `first_air_date_year` filter.
    pub first_air_date_year: Option<i32>,
    /// The `include_adult` filter.
    pub include_adult: Option<bool>,
    /// The `include_null_first_air_dates` filter.
    pub include_null_first_air_dates: Option<bool>,
    /// The `language` filter.
    pub language: Option<String>,
    /// The `page` filter.
    pub page: Option<i32>,
    /// The `screened_theatrically` filter.
    pub screened_theatrically: Option<bool>,
    /// The `sort_by` filter.
    pub sort_by: Option<DiscoverTvSortBy>,
    /// The `timezone` filter.
    pub timezone: Option<String>,
    /// The `watch_region` filter.
    pub watch_region: Option<String>,
    /// The `with_companies` filter.
    pub with_companies: Option<String>,
    /// The `with_genres` filter.
    pub with_genres: Option<String>,
    /// The `with_keywords` filter.
    pub with_keywords: Option<String>,
    /// The `with_networks` filter.
    pub with_networks: Option<i32>,
    /// The `with_origin_country` filter.
    pub with_origin_country: Option<String>,
    /// The `with_original_language` filter.
    pub with_original_language: Option<String>,
    /// The `with_runtime_gte` filter.
    pub with_runtime_gte: Option<i32>,
    /// The `with_runtime_lte` filter.
    pub with_runtime_lte: Option<i32>,
    /// The `with_status` filter.
    pub with_status: Option<String>,
    /// The `with_type` filter.
    pub with_type: Option<String>,
    /// The `with_watch_monetization_types` filter.
    pub with_watch_monetization_types: Option<String>,
    /// The `with_watch_providers` filter.
    pub with_watch_providers: Option<String>,
    /// The `without_companies` filter.
    pub without_companies: Option<String>,
    /// The `without_genres` filter.
    pub without_genres: Option<String>,
    /// The `without_keywords` filter.
    pub without_keywords: Option<String>,
    /// The `without_watch_providers` filter.
    pub without_watch_providers: Option<String>,
}

impl DiscoverTvQuery {
    /// A query with no filters but those that the client configuration
    /// gives: `include_adult`, `language`.
    pub fn new(cfg: &TmdbConfig) -> (q: Self)
        ensures
            q.air_date_gte is None,
            q.air_date_lte is None,
            q.first_air_date_gte is None,
            q.first_air_date_lte is None,
            q.first_air_date_year is None,
            q.include_adult == cfg.include_adult,
            q.include_null_first_air_dates is None,
            q.language == cfg.language,
            q.page is None,
            q.screened_theatrically is None,
            q.sort_by is None,
            q.timezone is None,
            q.watch_region is None,
            q.with_companies is None,
            q.with_genres is None,
            q.with_keywords is None,
            q.with_networks is None,
            q.with_origin_country is None,
            q.with_original_language is None,
            q.with_runtime_gte is None,
            q.with_runtime_lte is None,
            q.with_status is None,
            q.with_type is None,
            q.with_watch_monetization_types is None,
            q.with_watch_providers is None,
            q.without_companies is None,
            q.without_genres is None,
            q.without_keywords is None,
            q.without_watch_providers is None,
    {
        DiscoverTvQuery {
            air_date_gte: None,
            air_date_lte: None,
            first_air_date_gte: None,
            first_air_date_lte: None,
            first_air_date_year: None,
            include_adult: cfg.include_adult,
            include_null_first_air_dates: None,
            language: clone_opt(&cfg.language),
            page: None,
            screened_theatrically: None,
            sort_by: None,
            timezone: None,
            watch_region: None,
            with_companies: None,
            with_genres: None,
            with_keywords: None,
            with_networks: None,
            with_origin_country: None,
            with_original_language: None,
            with_runtime_gte: None,
            with_runtime_lte: None,
            with_status: None,
            with_type: None,
            with_watch_monetization_types: None,
            with_watch_providers: None,
            without_companies: None,
            without_genres: None,
            without_keywords: None,
            without_watch_providers: None,
        }
    }

    /// Set the sort order.
    pub fn sort_by(self, sort_by: DiscoverTvSortBy) -> (q: Self)
        ensures
            q == (DiscoverTvQuery { sort_by: Some(sort_by), ..self }),
    {
        DiscoverTvQuery { sort_by: Some(sort_by), ..self }
    }

    /// Filter by genre IDs (comma-separated).
    pub fn with_genres(self, genres: &str) -> (q: Self)
        ensures
            q.with_genres matches Some(v) && v@ == genres@,
            q == (DiscoverTvQuery { with_genres: q.with_genres, ..self }),
    {
        DiscoverTvQuery { with_genres: Some(owned(genres)), ..self }
    }

    /// Exclude genre IDs (comma-separated).
    pub fn without_genres(self, genres: &str) -> (q: Self)
        ensures
            q.without_genres matches Some(v) && v@ == genres@,
            q == (DiscoverTvQuery { without_genres: q.without_genres, ..self }),
    {
        DiscoverTvQuery { without_genres: Some(owned(genres)), ..self }
    }

    /// Filter by first air date year.
    pub fn first_air_date_year(self, year: i32) -> (q: Self)
        ensures
            q == (DiscoverTvQuery { first_air_date_year: Some(year), ..self }),
    {
        DiscoverTvQuery { first_air_date_year: Some(year), ..self }
    }

    /// First aired on or after the day with this day number (days since 1 January of year 1).
    pub fn first_air_date_gte(self, day: i32) -> (q: Self)
        ensures
            q == (DiscoverTvQuery { first_air_date_gte: Some(day), ..self }),
    {
        DiscoverTvQuery { first_air_date_gte: Some(day), ..self }
    }

    /// First aired on or before the day with this day number (days since 1 January of year 1).
    pub fn first_air_date_lte(self, day: i32) -> (q: Self)
        ensures
            q == (DiscoverTvQuery { first_air_date_lte: Some(day), ..self }),
    {
        DiscoverTvQuery { first_air_date_lte: Some(day), ..self }
    }

    /// Filter by network ID.
    pub fn with_networks(self, network_id: i32) -> (q: Self)
        ensures
            q == (DiscoverTvQuery { with_networks: Some(network_id), ..self }),
    {
        DiscoverTvQuery { with_networks: Some(network_id), ..self }
    }

    /// Filter by keyword IDs (comma-separated).
    pub fn with_keywords(self, keywords: &str) -> (q: Self)
        ensures
            q.with_keywords matches Some(v) && v@ == keywords@,
            q == (DiscoverTvQuery { with_keywords: q.with_keywords, ..self }),
    {
        DiscoverTvQuery { with_keywords: Some(owned(keywords)), ..self }
    }

    /// Filter by company IDs (comma-separated).
    pub fn with_companies(self, companies: &str) -> (q: Self)
        ensures
            q.with_companies matches Some(v) && v@ == companies@,
            q == (DiscoverTvQuery { with_companies: q.with_companies, ..self }),
    {
        DiscoverTvQuery { with_companies: Some(owned(companies)), ..self }
    }

    /// Filter by original language (ISO 639-1).
    pub fn with_original_language(self, lang: &str) -> (q: Self)
        ensures
            q.with_original_language matches Some(v) && v@ == lang@,
            q == (DiscoverTvQuery { with_original_language: q.with_original_language, ..self }),
    {
        DiscoverTvQuery { with_original_language: Some(owned(lang)), ..self }
    }

    /// Filter by origin country (ISO 3166-1 alpha-2).
    pub fn with_origin_country(self, country: &str) -> (q: Self)
        ensures
            q.with_origin_country matches Some(v) && v@ == country@,
            q == (DiscoverTvQuery { with_origin_country: q.with_origin_country, ..self }),
    {
        DiscoverTvQuery { with_origin_country: Some(owned(country)), ..self }
    }

    /// Minimum runtime in minutes.
    pub fn with_runtime_gte(self, min: i32) -> (q: Self)
        ensures
            q == (DiscoverTvQuery { with_runtime_gte: Some(min), ..self }),
    {
        DiscoverTvQuery { with_runtime_gte: Some(min), ..self }
    }

    /// Maximum runtime in minutes.
    pub fn with_runtime_lte(self, max: i32) -> (q: Self)
        ensures
            q == (DiscoverTvQuery { with_runtime_lte: Some(max), ..self }),
    {
        DiscoverTvQuery { with_runtime_lte: Some(max), ..self }
    }

    /// Set the page number.
    pub fn page(self, page: u32) -> (q: Self)
        ensures
            q == (DiscoverTvQuery { page: Some(page as i32), ..self }),
    {
        DiscoverTvQuery { page: Some(#[verifier::truncate] (page as i32)), ..self }
    }

    /// Include adult content.
    pub fn include_adult(self, adult: bool) -> (q: Self)
        ensures
            q == (DiscoverTvQuery { include_adult: Some(adult), ..self }),
    {
        DiscoverTvQuery { include_adult: Some(adult), ..self }
    }
}

} // verus!
