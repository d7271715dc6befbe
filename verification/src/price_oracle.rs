//! The spot-price cache: one (price, observed-at) pair with a fixed TTL.
//!
//! Reading and publishing are separate steps so that the upstream fetch —
//! which lives outside the library — happens exactly when the cache has no
//! fresh pair: a caller first asks for the cached price and only on a miss
//! performs one upstream fetch, publishing its result on success and leaving
//! the previous pair untouched on failure.

use vstd::prelude::*;

verus! {

/// Default time-to-live of a published spot price, in seconds.
pub const PRICE_CACHE_TTL_SECS: i64 = 10;

pub struct PriceCache {
    /// The last successfully fetched price (cents) and when it was observed
    /// (seconds).
    pub cached: Option<(u64, i64)>,
    /// Time-to-live of a published pair, in seconds.
    pub cache_duration_secs: i64,
}

impl PriceCache {
    /// Whether the cached pair is younger than the TTL at `now`. A clock
    /// that moved backwards past the pair makes it stale, never fresh.
    pub open spec fn spec_fresh(self, now: int) -> bool {
        self.cached is Some && 0 <= now - self.cached->Some_0.1 < self.cache_duration_secs
    }

    /// What a read at `now` returns.
    pub open spec fn spec_read(self, now: int) -> Option<u64> {
        if self.spec_fresh(now) {
            Some(self.cached->Some_0.0)
        } else {
            None
        }
    }

    /// A cold cache with the given TTL.
    pub fn new(cache_duration_secs: i64) -> (r: PriceCache)
        ensures
            r.cached is None,
            r.cache_duration_secs == cache_duration_secs,
    {
        PriceCache { cached: None, cache_duration_secs }
    }

    /// The cached price when the last successful fetch is younger than the
    /// TTL; `None` when an upstream fetch is due. Reading never changes the
    /// cache.
    pub fn get_cached_price(&self, now: i64) -> (r: Option<u64>)
        ensures
            r == self.spec_read(now as int),
    {
        match &self.cached {
            Some(pair) => {
                let (price, at) = *pair;
                if now >= at && (now as i128 - at as i128) < self.cache_duration_secs as i128 {
                    Some(price)
                } else {
                    None
                }
            },
            None => None,
        }
    }

    /// Atomically replaces the cached pair with a freshly fetched price.
    pub fn store_price(&mut self, price_cents: u64, now: i64)
        ensures
            final(self).cached == Some((price_cents, now)),
            final(self).cache_duration_secs == old(self).cache_duration_secs,
    {
        self.cached = Some((price_cents, now));
    }
}

/// Every read within the TTL of one published price returns exactly that
/// price, so two reads in the window are identical and neither forces an
/// upstream fetch; reading takes the cache by shared reference and cannot
/// change it.
pub proof fn lemma_price_cache_fresh_window(c: PriceCache, now1: int, now2: int)
    requires
        c.cached is Some,
        0 <= now1 - c.cached->Some_0.1 < c.cache_duration_secs,
        0 <= now2 - c.cached->Some_0.1 < c.cache_duration_secs,
    ensures
        c.spec_read(now1) == Some(c.cached->Some_0.0),
        c.spec_read(now1) == c.spec_read(now2),
{
}

/// Once the TTL has elapsed the cache reports a miss, so the next read
/// triggers a new upstream fetch.
pub proof fn lemma_price_cache_expires(c: PriceCache, now: int)
    requires
        c.cached is Some ==> now - c.cached->Some_0.1 >= c.cache_duration_secs,
    ensures
        c.spec_read(now) is None,
{
}

} // verus!
