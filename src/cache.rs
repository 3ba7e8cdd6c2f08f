//! The expiry rule of the service client's response cache. Times are
//! milliseconds on a clock that the caller reads; the cache itself, behind
//! its lock, belongs to the application.

use vstd::prelude::*;

verus! {

/// When a cached value was stored, and how long it stays fresh.
#[derive(Debug, Clone, Copy, PartialEq, Eq, Structural)]
pub struct CacheEntry {
    pub created_at: u64,
    pub ttl: u64,
}

impl CacheEntry {
    /// An entry stored at `created_at` that stays fresh for `ttl`.
    pub fn new(created_at: u64, ttl: u64) -> (r: CacheEntry)
        ensures
            r == (CacheEntry { created_at, ttl }),
    {
        CacheEntry { created_at, ttl }
    }

    /// Expired: more than `ttl` has passed since the entry was stored.
    pub fn is_expired(&self, now: u64) -> (r: bool)
        ensures
            r == (now - self.created_at > self.ttl),
    {
        if now < self.created_at {
            false
        } else {
            now - self.created_at > self.ttl
        }
    }
}

} // verus!
