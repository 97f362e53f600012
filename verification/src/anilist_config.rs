//! Configuration of the AniList provider.
use vstd::prelude::*;

use crate::text::owned;

verus! {

/// The number of results per page when none is configured.
pub const DEFAULT_PER_PAGE: u32 = 20;

/// The AniList GraphQL endpoint used when none is configured.
pub open spec fn default_anilist_url() -> Seq<char> {
    "https://graphql.anilist.co"@
}

/// Configuration for the AniList client.
#[derive(Debug, Clone)]
pub struct AniListConfig {
    /// Base URL for the AniList GraphQL endpoint.
    ///
    /// Defaults to `https://graphql.anilist.co`.  Override for testing.
    pub base_url: String,
    /// Number of results returned per page (default: 20, max: 50).
    pub per_page: u32,
}

/// `v` brought into the range `lo..=hi`.
pub open spec fn clamp(v: int, lo: int, hi: int) -> int {
    if v < lo { lo } else if v > hi { hi } else { v }
}

impl Default for AniListConfig {
    fn default() -> (r: Self)
        ensures
            r.base_url@ == default_anilist_url(),
            r.per_page == DEFAULT_PER_PAGE,
    {
        AniListConfig { base_url: owned("https://graphql.anilist.co"), per_page: DEFAULT_PER_PAGE }
    }
}

impl AniListConfig {
    /// Create a new config with default settings.
    ///
    /// No authentication is required for AniList public data.
    pub fn new() -> (r: Self)
        ensures
            r.base_url@ == default_anilist_url(),
            r.per_page == DEFAULT_PER_PAGE,
    {
        Self::default()
    }

    /// Create a config with a custom base URL (useful for testing with mock servers).
    pub fn new_with_base_url(base_url: &str) -> (r: Self)
        ensures
            r.base_url@ == base_url@,
            r.per_page == DEFAULT_PER_PAGE,
    {
        AniListConfig { base_url: owned(base_url), per_page: DEFAULT_PER_PAGE }
    }

    /// Set the number of results per page.
    ///
    /// Valid range is 1–50 (AniList API limit); values outside this range are clamped.
    pub fn with_per_page(self, per_page: u32) -> (r: Self)
        ensures
            r.per_page == clamp(per_page as int, 1, 50),
            r.base_url == self.base_url,
    {
        let p = if per_page < 1 { 1 } else if per_page > 50 { 50 } else { per_page };
        AniListConfig { base_url: self.base_url, per_page: p }
    }
}

} // verus!
