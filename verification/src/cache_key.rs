//! Cache key types for the cache layer.
use vstd::prelude::*;
use vstd::string::StringExecFns;

use crate::text::{decimal, owned, push_decimal, to_lowercase, trim, trimmed, lowercase};

verus! {

/// The media type of a cached item.
#[derive(Debug, Clone, Copy, PartialEq, Eq, Hash, Structural)]
pub enum MediaType {
    /// Movie media type.
    Movie,
    /// TV show media type.
    TvShow,
    /// Person (cast/crew) media type.
    Person,
}

/// The text of a media type inside cache keys.
pub open spec fn media_type_text(mt: MediaType) -> Seq<char> {
    match mt {
        MediaType::Movie => "movie"@,
        MediaType::TvShow => "tv"@,
        MediaType::Person => "person"@,
    }
}

impl MediaType {
    /// The text of this media type inside cache keys.
    pub fn as_str(&self) -> (s: &'static str)
        ensures
            s@ == media_type_text(*self),
    {
        match self {
            MediaType::Movie => "movie",
            MediaType::TvShow => "tv",
            MediaType::Person => "person",
        }
    }
}

/// A key identifying a cache entry.
#[derive(Debug, Clone, PartialEq, Eq, Hash)]
pub enum CacheKey {
    /// Full detail response: (media_type, provider_id).
    Detail {
        /// Media type of the cached item.
        media_type: MediaType,
        /// Provider-qualified ID (e.g. `"tmdb:550"`).
        provider_id: String,
    },
    /// Individual item indexed from a list result: (media_type, provider_id).
    Item {
        /// Media type of the cached item.
        media_type: MediaType,
        /// Provider-qualified ID (e.g. `"tmdb:550"`).
        provider_id: String,
    },
    /// Search results page: (optional media_type, normalized query, page).
    Search {
        /// Optional media type filter (`None` means multi-search).
        media_type: Option<MediaType>,
        /// Search query string (will be normalized for the key).
        query: String,
        /// Page number (1-based).
        page: u32,
    },
    /// Discovery/list results page: (endpoint name, page).
    Discovery {
        /// Endpoint or list name (e.g. `"trending_movies"`).
        endpoint: String,
        /// Page number (1-based).
        page: u32,
    },
}

/// A search query as it stands in cache keys: trimmed, then lower-cased.
pub open spec fn normalized_query(q: Seq<char>) -> Seq<char> {
    lowercase(trim(q))
}

/// The `key_type` column of a key.
pub open spec fn key_type_text(k: CacheKey) -> Seq<char> {
    match k {
        CacheKey::Detail { .. } => "detail"@,
        CacheKey::Item { .. } => "item"@,
        CacheKey::Search { .. } => "search"@,
        CacheKey::Discovery { .. } => "discovery"@,
    }
}

/// The `key_id` column of a key.
pub open spec fn key_id_text(k: CacheKey) -> Seq<char> {
    match k {
        CacheKey::Detail { media_type, provider_id } =>
            media_type_text(media_type) + ":"@ + provider_id@,
        CacheKey::Item { media_type, provider_id } =>
            media_type_text(media_type) + ":"@ + provider_id@,
        CacheKey::Search { media_type, query, page } =>
            (match media_type { Some(m) => media_type_text(m), None => "multi"@ })
                + ":"@ + normalized_query(query@) + ":"@ + decimal(page as nat),
        CacheKey::Discovery { endpoint, page } =>
            endpoint@ + ":"@ + decimal(page as nat),
    }
}

impl CacheKey {
    /// Returns the `key_type` string used in the SQLite table (discriminant).
    pub fn key_type(&self) -> (s: &'static str)
        ensures
            s@ == key_type_text(*self),
    {
        match self {
            CacheKey::Detail { .. } => "detail",
            CacheKey::Item { .. } => "item",
            CacheKey::Search { .. } => "search",
            CacheKey::Discovery { .. } => "discovery",
        }
    }

    /// Returns the `key_id` string used as the second column of the composite
    /// primary key, uniquely identifying the entry within its `key_type`.
    pub fn key_id(&self) -> (s: String)
        ensures
            s@ == key_id_text(*self),
    {
        match self {
            CacheKey::Detail { media_type, provider_id } => {
                let mut s = owned(media_type.as_str());
                s.append(":");
                s.append(provider_id.as_str());
                s
            },
            CacheKey::Item { media_type, provider_id } => {
                let mut s = owned(media_type.as_str());
                s.append(":");
                s.append(provider_id.as_str());
                s
            },
            CacheKey::Search { media_type, query, page } => {
                let mut s = match media_type {
                    Some(m) => owned(m.as_str()),
                    None => owned("multi"),
                };
                s.append(":");
                let q = normalize_query(query.as_str());
                s.append(q.as_str());
                s.append(":");
                push_decimal(&mut s, *page as u64);
                s
            },
            CacheKey::Discovery { endpoint, page } => {
                let mut s = owned(endpoint.as_str());
                s.append(":");
                push_decimal(&mut s, *page as u64);
                s
            },
        }
    }
}

/// Normalize a search query for cache key consistency: trim, then lower-case.
pub fn normalize_query(query: &str) -> (r: String)
    ensures
        r@ == normalized_query(query@),
{
    let t = trimmed(query);
    to_lowercase(t.as_str())
}

} // verus!
