//! Time-to-live policy of the cache layer.
use chrono::NaiveDate;
use core::time::Duration;
use vstd::prelude::*;

use crate::text::str_eq;

verus! {

/// `Duration` is `Copy`; its `Clone::clone` returns the same value.
pub assume_specification[ <Duration as Clone>::clone ](d: &Duration) -> (r: Duration)
    ensures
        r == *d,
;

/// The `Duration` of `n` whole seconds, as `Duration::from_secs` builds it.
pub uninterp spec fn duration_from_secs(n: u64) -> Duration;

/// The day number (days since 1 January of year 1, as
/// `Datelike::num_days_from_ce` counts them) of the date that
/// `NaiveDate::parse_from_str(s, "%Y-%m-%d")` reads from a text, or `None`
/// where it fails.
pub uninterp spec fn ce_day_of_text(s: Seq<char>) -> Option<i32>;

/// Calls `Duration::from_secs`; the contract names its result.
#[verifier::external_body]
fn secs(n: u64) -> (d: Duration)
    ensures
        d == duration_from_secs(n),
{
    Duration::from_secs(n)
}

/// Calls `NaiveDate::parse_from_str` with the format `%Y-%m-%d` and, on
/// success, `Datelike::num_days_from_ce` of the date; the contract names the
/// result.
#[verifier::external_body]
fn parse_day(s: &str) -> (r: Option<i32>)
    ensures
        r == ce_day_of_text(s@),
{
    match NaiveDate::parse_from_str(s, "%Y-%m-%d") {
        Ok(d) => Some(chrono::Datelike::num_days_from_ce(&d)),
        Err(_) => None,
    }
}

/// Calls `Utc::now` and gives the day number (`Datelike::num_days_from_ce`)
/// of its calendar date. Nothing is stated of the result: it depends on the
/// clock.
#[verifier::external_body]
fn today_day() -> i32 {
    chrono::Datelike::num_days_from_ce(&chrono::Utc::now().date_naive())
}

/// TTL configuration for the cache layer.
///
/// Different response types have different staleness tolerances.
/// Age-aware TTL fields allow stable/old content to be cached longer while
/// keeping volatile or recently-released content fresher.
#[derive(Debug, Clone)]
pub struct CacheTtlConfig {
    /// Fallback TTL for detail responses when no age policy matches.
    pub details: Duration,
    /// TTL for search result pages.
    pub search: Duration,
    /// TTL for discovery/listing result pages.
    pub discovery: Duration,
    /// TTL for individual items indexed from list results.
    pub items: Duration,
    /// Content is considered "old" when its release/air date is at least this
    /// many days in the past (default: 1095 = ~3 years).
    pub old_content_threshold_days: u32,
    /// Content is considered "recent" when its release/air date is within this
    /// many days of today (default: 180 = ~6 months).
    pub recent_content_threshold_days: u32,
    /// TTL applied to old, stable content. Default: 7 days.
    pub old_content_details_ttl: Duration,
    /// TTL applied to recently-released or in-production content. Default: 6 hours.
    pub recent_content_details_ttl: Duration,
    /// TTL applied to actively-airing TV shows (`in_production = true` or
    /// `last_air_date` within the past 90 days). Default: 4 hours.
    pub active_content_details_ttl: Duration,
    /// TTL for volatile/dynamic data such as popularity scores and vote counts.
    /// Default: 1 hour.
    pub volatile_ttl: Duration,
}

impl Default for CacheTtlConfig {
    fn default() -> (r: Self)
        ensures
            r.details == duration_from_secs(86400u64),
            r.search == duration_from_secs(3600u64),
            r.discovery == duration_from_secs(900u64),
            r.items == duration_from_secs(21600u64),
            r.old_content_threshold_days == 1095,
            r.recent_content_threshold_days == 180,
            r.old_content_details_ttl == duration_from_secs(604800u64),
            r.recent_content_details_ttl == duration_from_secs(21600u64),
            r.active_content_details_ttl == duration_from_secs(14400u64),
            r.volatile_ttl == duration_from_secs(3600u64),
    {
        CacheTtlConfig {
            details: secs(86400),
            search: secs(3600),
            discovery: secs(900),
            items: secs(21600),
            old_content_threshold_days: 1095,
            recent_content_threshold_days: 180,
            old_content_details_ttl: secs(604800),
            recent_content_details_ttl: secs(21600),
            active_content_details_ttl: secs(14400),
            volatile_ttl: secs(3600),
        }
    }
}

/// Whether an optional status text equals the given one.
pub open spec fn status_is(status: Option<Seq<char>>, text: Seq<char>) -> bool {
    status == Some(text)
}

/// A movie status that means the movie is not out yet.
pub open spec fn movie_in_production(status: Option<Seq<char>>) -> bool {
    status_is(status, "In Production"@) || status_is(status, "Post Production"@)
        || status_is(status, "Planned"@) || status_is(status, "Rumored"@)
}

/// A TV status of a show that will not air again.
pub open spec fn tv_ended(status: Option<Seq<char>>) -> bool {
    status_is(status, "Ended"@) || status_is(status, "Canceled"@)
}

/// A TV status of a show that goes on or is about to start.
pub open spec fn tv_returning(status: Option<Seq<char>>) -> bool {
    status_is(status, "Returning Series"@) || status_is(status, "In Production"@)
        || status_is(status, "Planned"@)
}

/// The text of an optional string slice.
pub open spec fn opt_text(s: Option<&str>) -> Option<Seq<char>> {
    match s {
        Some(t) => Some(t@),
        None => None,
    }
}

/// The age in days of the date written in `date`, counted up to the day
/// numbered `today`; `None` when there is no date or it does not parse.
pub open spec fn age_in_days(today: i32, date: Option<Seq<char>>) -> Option<i64> {
    match date {
        Some(t) => match ce_day_of_text(t) {
            Some(d) => Some((today - d) as i64),
            None => None,
        },
        None => None,
    }
}

/// Whether an optional age is more than `threshold` days.
pub open spec fn older_than(age: Option<i64>, threshold: int) -> bool {
    age matches Some(d) && d > threshold
}

/// Whether an optional age is at most `threshold` days.
pub open spec fn within(age: Option<i64>, threshold: int) -> bool {
    age matches Some(d) && d <= threshold
}

impl CacheTtlConfig {
    /// The TTL of a movie detail entry, given the age of its release date in
    /// days and its status (first match wins):
    /// 1. released and older than the old-content threshold: the old-content TTL;
    /// 2. in production, or released within the recent-content threshold: the
    ///    recent-content TTL;
    /// 3. otherwise the fallback detail TTL.
    pub open spec fn movie_ttl(&self, release_age: Option<i64>, status: Option<Seq<char>>) -> Duration {
        if status_is(status, "Released"@) && older_than(release_age, self.old_content_threshold_days as int) {
            self.old_content_details_ttl
        } else if movie_in_production(status) || within(release_age, self.recent_content_threshold_days as int) {
            self.recent_content_details_ttl
        } else {
            self.details
        }
    }

    /// The TTL of a TV show detail entry, given the ages of its first and last
    /// air dates in days, its status and whether it is in production (first
    /// match wins):
    /// 1. in production, or last aired within 90 days: the active-content TTL;
    /// 2. ended or canceled and first aired before the old-content threshold:
    ///    the old-content TTL;
    /// 3. returning, in production or planned, or first aired within the
    ///    recent-content threshold: the recent-content TTL;
    /// 4. otherwise the fallback detail TTL.
    pub open spec fn tv_ttl(
        &self,
        first_air_age: Option<i64>,
        last_air_age: Option<i64>,
        status: Option<Seq<char>>,
        in_production: bool,
    ) -> Duration {
        if in_production || within(last_air_age, 90) {
            self.active_content_details_ttl
        } else if tv_ended(status) && older_than(first_air_age, self.old_content_threshold_days as int) {
            self.old_content_details_ttl
        } else if tv_returning(status) || within(first_air_age, self.recent_content_threshold_days as int) {
            self.recent_content_details_ttl
        } else {
            self.details
        }
    }

    /// The TTL of a movie detail entry for a release date already turned into
    /// an age in days (see [`CacheTtlConfig::movie_ttl`]).
    pub fn movie_details_ttl_for_age(&self, release_age: Option<i64>, status: Option<&str>) -> (d: Duration)
        ensures
            d == self.movie_ttl(release_age, opt_text(status)),
    {
        let is_released = match status { Some(s) => str_eq(s, "Released"), None => false };
        let is_old = match release_age {
            Some(d) => d > self.old_content_threshold_days as i64,
            None => false,
        };
        if is_released && is_old {
            return self.old_content_details_ttl;
        }
        let is_in_production = match status {
            Some(s) => str_eq(s, "In Production") || str_eq(s, "Post Production")
                || str_eq(s, "Planned") || str_eq(s, "Rumored"),
            None => false,
        };
        let is_recent = match release_age {
            Some(d) => d <= self.recent_content_threshold_days as i64,
            None => false,
        };
        if is_in_production || is_recent {
            return self.recent_content_details_ttl;
        }
        self.details
    }

    /// The TTL of a TV show detail entry for air dates already turned into
    /// ages in days (see [`CacheTtlConfig::tv_ttl`]).
    pub fn tv_show_details_ttl_for_ages(
        &self,
        first_air_age: Option<i64>,
        last_air_age: Option<i64>,
        status: Option<&str>,
        in_production: bool,
    ) -> (d: Duration)
        ensures
            d == self.tv_ttl(first_air_age, last_air_age, opt_text(status), in_production),
    {
        let recently_aired = match last_air_age { Some(d) => d <= 90, None => false };
        if in_production || recently_aired {
            return self.active_content_details_ttl;
        }
        let is_ended = match status {
            Some(s) => str_eq(s, "Ended") || str_eq(s, "Canceled"),
            None => false,
        };
        let is_old = match first_air_age {
            Some(d) => d > self.old_content_threshold_days as i64,
            None => false,
        };
        if is_ended && is_old {
            return self.old_content_details_ttl;
        }
        let is_returning = match status {
            Some(s) => str_eq(s, "Returning Series") || str_eq(s, "In Production")
                || str_eq(s, "Planned"),
            None => false,
        };
        let is_recent = match first_air_age {
            Some(d) => d <= self.recent_content_threshold_days as i64,
            None => false,
        };
        if is_returning || is_recent {
            return self.recent_content_details_ttl;
        }
        self.details
    }

    /// Compute the appropriate cache TTL for a movie detail entry, ageing the
    /// release date against today's date (see [`CacheTtlConfig::movie_ttl`]).
    pub fn movie_details_ttl(&self, release_date: Option<&str>, status: Option<&str>) -> (d: Duration)
        ensures
            exists|today: i32|
                d == self.movie_ttl(age_in_days(today, opt_text(release_date)), opt_text(status)),
    {
        let today = today_day();
        let age = age_of(today, release_date);
        self.movie_details_ttl_for_age(age, status)
    }

    /// Compute the appropriate cache TTL for a TV show detail entry, ageing the
    /// air dates against today's date (see [`CacheTtlConfig::tv_ttl`]).
    pub fn tv_show_details_ttl(
        &self,
        first_air_date: Option<&str>,
        last_air_date: Option<&str>,
        status: Option<&str>,
        in_production: bool,
    ) -> (d: Duration)
        ensures
            exists|today: i32|
                d == self.tv_ttl(
                    age_in_days(today, opt_text(first_air_date)),
                    age_in_days(today, opt_text(last_air_date)),
                    opt_text(status),
                    in_production,
                ),
    {
        let today = today_day();
        let last_age = age_of(today, last_air_date);
        let first_age = age_of(today, first_air_date);
        self.tv_show_details_ttl_for_ages(first_age, last_age, status, in_production)
    }
}

/// The age in days of an optional `YYYY-MM-DD` date on the given day.
pub fn age_of(today: i32, date: Option<&str>) -> (r: Option<i64>)
    ensures
        r == age_in_days(today, opt_text(date)),
{
    match date {
        Some(s) => match parse_day(s) {
            Some(d) => Some((today as i64) - (d as i64)),
            None => None,
        },
        None => None,
    }
}

} // verus!
