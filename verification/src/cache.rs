//! The bounded, expiring store of simple responses.
//!
//! Entries live under the raw address string, at most `max_capacity` of
//! them and none past its time to live.  Expiry and eviction depend on
//! the clock and on concurrent use, so the contracts here promise
//! nothing of any single outcome: a `get` may miss at any time, and the
//! pipeline around the cache stays correct for both outcomes.

use vstd::prelude::*;

use crate::models::IpGeoResponse;

verus! {

/// Cache sizing: entry cap and time to live in seconds.
#[derive(Debug, Clone)]
pub struct CacheConfig {
    pub max_capacity: u64,
    pub ttl_secs: u64,
}

impl Default for CacheConfig {
    /// Ten thousand entries, kept for an hour.
    fn default() -> (r: CacheConfig)
        ensures
            r.max_capacity == 10_000,
            r.ttl_secs == 3600,
    {
        CacheConfig { max_capacity: 10_000, ttl_secs: 3600 }
    }
}

#[verifier::external_type_specification]
#[verifier::external_body]
#[verifier::reject_recursive_types(K)]
#[verifier::reject_recursive_types(V)]
#[verifier::reject_recursive_types(S)]
pub struct ExMokaCache<K, V, S>(moka::sync::Cache<K, V, S>);

/// The response cache, keyed by the raw address string.
pub struct GeoCache {
    cache: moka::sync::Cache<String, IpGeoResponse>,
}

impl GeoCache {
    /// Relies on moka's cache builder: the built cache holds at most
    /// `max_capacity` entries and drops each entry once its time to
    /// live has passed.  moka's `build` panics on a time to live over
    /// a thousand years, so that bound is required here.
    #[verifier::external_body]
    pub fn new(config: CacheConfig) -> (r: GeoCache)
        requires
            config.ttl_secs <= 31_536_000_000,
    {
        let cache = moka::sync::Cache::builder().max_capacity(config.max_capacity).time_to_live(
            std::time::Duration::from_secs(config.ttl_secs),
        ).build();
        GeoCache { cache }
    }

    /// Relies on moka's `Cache::get`, which returns a clone of the
    /// entry under the key when one is present.  Entries expire with
    /// the clock, so no outcome is promised: callers must be correct
    /// for a hit and for a miss alike.
    #[verifier::external_body]
    pub fn get(&self, ip: &str) -> (r: Option<IpGeoResponse>) {
        self.cache.get(ip)
    }

    /// Relies on moka's `Cache::insert`, which stores the value under
    /// the key, replacing any previous entry; capacity eviction and
    /// expiry may drop it again at any later point.
    #[verifier::external_body]
    pub fn insert(&self, ip: String, response: IpGeoResponse) {
        self.cache.insert(ip, response);
    }

    /// Relies on moka's `Cache::entry_count`, an eventually-consistent
    /// estimate of the number of live entries.
    #[verifier::external_body]
    pub fn len(&self) -> (r: u64) {
        self.cache.entry_count()
    }

    /// Whether the entry-count estimate reads zero.
    pub fn is_empty(&self) -> (r: bool) {
        self.len() == 0
    }
}

} // verus!
