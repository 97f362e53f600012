# cameo

A movie and TV metadata SDK over TMDB and AniList, with a cache in front of
both providers. The verified library (`src/`) holds the logic: cache keys and
their normalization, the time-to-live policy, expiry arithmetic, the
conversions from provider responses to unified models, genre mapping, the
AniList request plans and response checks, the TMDB discover filters and
the bearer-token check, and the decision procedures of the
multi-provider facade (which provider answers, which entries are read and
written). `src/properties.rs` states the laws that span several operations, some of
them over a model of the cache table (`src/cache_store.rs`).

`app/` is the asynchronous shell around it: the HTTP clients, the SQLite
cache, the facade that runs the library's decisions, and the serializable
model types with floating-point scores.
