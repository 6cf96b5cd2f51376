//! A single-slot memo of the last status probe, keyed by the scope it was
//! probed for and trusted for a fixed time after the probe.

use vstd::prelude::*;

verus! {

/// How long a probed status stays valid, in milliseconds.
pub const STATUS_CACHE_TTL_MS: u64 = 30_000;

/// A probed value, the scope it was probed for, and when (in milliseconds on
/// a monotonic clock).
pub struct CacheEntry<T> {
    pub value: T,
    pub scope: String,
    pub checked_at_ms: u64,
}

/// Holds at most one entry: a probe for another scope replaces it.
pub struct StatusCache<T> {
    pub entry: Option<CacheEntry<T>>,
}

/// Whether an entry probed at `checked_at` may still be used at `now`.
pub open spec fn within_ttl(checked_at: u64, now: u64) -> bool {
    now <= checked_at + STATUS_CACHE_TTL_MS
}

impl<T> StatusCache<T> {
    /// The value that a lookup for `scope` at `now` returns.
    pub open spec fn cached(&self, scope: Seq<char>, now: u64) -> Option<T> {
        match self.entry {
            Some(e) => if e.scope@ == scope && within_ttl(e.checked_at_ms, now) {
                Some(e.value)
            } else {
                None
            },
            None => None,
        }
    }

    /// The cache once `value` has been stored for `scope` at `now`.
    pub open spec fn stored(scope: String, value: T, now: u64) -> Self {
        StatusCache { entry: Some(CacheEntry { value, scope, checked_at_ms: now }) }
    }

    /// An empty cache.
    pub fn new() -> (r: Self)
        ensures
            r.entry is None,
    {
        StatusCache { entry: None }
    }

    /// The cached value for `scope`, if one was stored for exactly that scope
    /// no more than the TTL before `now_ms`.
    pub fn read_cached_status(&self, scope: &String, now_ms: u64) -> (r: Option<&T>)
        ensures
            r matches Some(v) ==> self.cached(scope@, now_ms) == Some(*v),
            r is None ==> self.cached(scope@, now_ms) is None,
    {
        match &self.entry {
            Some(e) => {
                if e.scope == *scope && (now_ms < e.checked_at_ms || now_ms - e.checked_at_ms
                    <= STATUS_CACHE_TTL_MS) {
                    Some(&e.value)
                } else {
                    None
                }
            },
            None => None,
        }
    }

    /// Stores `value` for `scope`, probed at `now_ms`, replacing any entry.
    pub fn write_cached_status(&mut self, scope: String, value: T, now_ms: u64)
        ensures
            *final(self) == Self::stored(scope, value, now_ms),
    {
        self.entry = Some(CacheEntry { value, scope, checked_at_ms: now_ms });
    }

    /// Forgets the cached entry.
    pub fn clear_cached_status(&mut self)
        ensures
            final(self).entry is None,
    {
        self.entry = None;
    }
}

/// A lookup right after a store, for the same scope, returns the stored
/// value while the TTL has not elapsed, and nothing once it has.
pub proof fn lemma_get_after_put<T>(scope: String, value: T, put_at: u64, now: u64)
    requires
        put_at <= now,
    ensures
        now <= put_at + STATUS_CACHE_TTL_MS ==> StatusCache::<T>::stored(scope, value, put_at).cached(
            scope@,
            now,
        ) == Some(value),
        now > put_at + STATUS_CACHE_TTL_MS ==> StatusCache::<T>::stored(
            scope,
            value,
            put_at,
        ).cached(scope@, now) is None,
{
}

/// After the cache is cleared, no scope has a value.
pub proof fn lemma_cleared_is_empty<T>(c: StatusCache<T>, scope: Seq<char>, now: u64)
    requires
        c.entry is None,
    ensures
        c.cached(scope, now) is None,
{
}

} // verus!
