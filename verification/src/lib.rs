//! Unified movie and TV show metadata: the verified core.

pub mod anilist_client;
pub mod anilist_config;
pub mod anilist_convert;
pub mod anilist_response;
pub mod cache_key;
pub mod cache_store;
pub mod cache_ttl;
pub mod conversion_laws;
pub mod discover;
pub mod facade_plan;
pub mod genre;
pub mod image_url;
pub mod models;
pub mod pagination;
pub mod properties;
pub mod text;
pub mod time_window;
pub mod tmdb_client;
pub mod tmdb_config;
pub mod tmdb_convert;
pub mod tmdb_request;
