//! Configuration of the TMDB provider.
use core::time::Duration;
use vstd::prelude::*;

use crate::text::owned;

verus! {

/// The concurrency limit used when none is configured.
pub const DEFAULT_RATE_LIMIT: u32 = 40;

/// Configuration for the TMDB client.
#[derive(Debug, Clone)]
pub struct TmdbConfig {
    /// TMDB API read access token (v4 auth / bearer token).
    pub api_token: String,
    /// Base URL override (defaults to `https://api.themoviedb.org`).
    pub base_url: Option<String>,
    /// Default language for requests (e.g. `"en-US"`).
    pub language: Option<String>,
    /// Default region for requests (e.g. `"US"`).
    pub region: Option<String>,
    /// Whether to include adult content in results.
    pub include_adult: Option<bool>,
    /// Maximum number of **concurrent** in-flight requests (defaults to 40).
    ///
    /// This bounds how many HTTP requests can be awaiting a response at the
    /// same time; it does not enforce a requests-per-second rate (TMDB's own
    /// limit is enforced server-side).
    pub rate_limit: u32,
    /// Maximum time to wait for a concurrency permit before the request fails
    /// with a rate-limit error. `None` (the default) waits indefinitely.
    pub rate_limit_timeout: Option<Duration>,
}

impl TmdbConfig {
    /// Create a new config with the given API token.
    pub fn new(api_token: &str) -> (r: Self)
        ensures
            r.api_token@ == api_token@,
            r.base_url is None,
            r.language is None,
            r.region is None,
            r.include_adult is None,
            r.rate_limit == DEFAULT_RATE_LIMIT,
            r.rate_limit_timeout is None,
    {
        TmdbConfig {
            api_token: owned(api_token),
            base_url: None,
            language: None,
            region: None,
            include_adult: None,
            rate_limit: DEFAULT_RATE_LIMIT,
            rate_limit_timeout: None,
        }
    }

    /// Create a new config with a custom base URL (useful for testing).
    pub fn new_with_base_url(api_token: &str, base_url: &str) -> (r: Self)
        ensures
            r.api_token@ == api_token@,
            r.base_url matches Some(u) && u@ == base_url@,
            r.language is None,
            r.region is None,
            r.include_adult is None,
            r.rate_limit == DEFAULT_RATE_LIMIT,
            r.rate_limit_timeout is None,
    {
        TmdbConfig {
            api_token: owned(api_token),
            base_url: Some(owned(base_url)),
            language: None,
            region: None,
            include_adult: None,
            rate_limit: DEFAULT_RATE_LIMIT,
            rate_limit_timeout: None,
        }
    }

    /// Set the default language.
    pub fn with_language(self, language: &str) -> (r: Self)
        ensures
            r.language matches Some(l) && l@ == language@,
            r == (TmdbConfig { language: r.language, ..self }),
    {
        TmdbConfig { language: Some(owned(language)), ..self }
    }

    /// Set the default region.
    pub fn with_region(self, region: &str) -> (r: Self)
        ensures
            r.region matches Some(g) && g@ == region@,
            r == (TmdbConfig { region: r.region, ..self }),
    {
        TmdbConfig { region: Some(owned(region)), ..self }
    }

    /// Set whether to include adult content.
    pub fn with_include_adult(self, include_adult: bool) -> (r: Self)
        ensures
            r == (TmdbConfig { include_adult: Some(include_adult), ..self }),
    {
        TmdbConfig { include_adult: Some(include_adult), ..self }
    }

    /// Set the rate limit (max concurrent requests).
    ///
    /// Minimum value is 1; lower values are clamped.
    pub fn with_rate_limit(self, limit: u32) -> (r: Self)
        ensures
            r == (TmdbConfig { rate_limit: if limit < 1 { 1 } else { limit }, ..self }),
    {
        let l = if limit < 1 { 1 } else { limit };
        TmdbConfig { rate_limit: l, ..self }
    }

    /// Set a timeout for acquiring a concurrency permit.
    pub fn with_rate_limit_timeout(self, timeout: Duration) -> (r: Self)
        ensures
            r == (TmdbConfig { rate_limit_timeout: Some(timeout), ..self }),
    {
        TmdbConfig { rate_limit_timeout: Some(timeout), ..self }
    }
}

} // verus!
