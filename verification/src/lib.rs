//! A read-through, TTL-bound, snapshot-persisted cache core for a weather
//! report service.
//!
//! The heart of the crate is [`store::CacheStore`], a read-through cache
//! engine keyed by strings: an in-memory map of timestamped entries, an
//! explicit loaded/unloaded flag for the lazy disk snapshot, and a freshness
//! rule driven by an optional time-to-live. Three instances specialise it:
//! a permanent location cache (geocoding results), a weather cache with a
//! 600 second time-to-live and an eviction sweep on insert, and a summary
//! cache with the same time-to-live and no sweep.
//!
//! Everything that decides — freshness, refresh intent, eviction, key
//! derivation, prompt construction, response extraction — lives here and is
//! verified. The surrounding process (HTTP routing, network calls, disk and
//! environment access) stays outside and drives these functions with plain
//! values.

pub mod clock;
pub mod decimal;
pub mod errors;
pub mod forecast_json;
pub mod json;
pub mod location;
pub mod store;
pub mod summary;
pub mod weather;

pub use errors::FetchError;
