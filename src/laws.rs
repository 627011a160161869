use vstd::prelude::*;

use crate::codec::Codec;
use crate::executor::{after_miss, cache_aside_result, served, Lookup};
use crate::store::{live_bytes, StoredEntry};

verus! {

/// A hit keeps hitting: where `key` serves `v` at second `t1`, it serves the same `v`
/// at every later second before the entry expires. A hit leaves the store unchanged
/// and `CacheAside::execute` neither needs nor runs the fallback on a hit, so repeated
/// reads return `v` without it.
pub proof fn lemma_hit_repeats<T: Codec>(
    m: Map<Seq<char>, StoredEntry>,
    key: Seq<char>,
    v: T::V,
    t1: u64,
    t2: u64,
)
    requires
        served::<T>(live_bytes(m, key, t1)) == Some(v),
        t1 <= t2,
        t2 < m[key].expires_at,
    ensures
        served::<T>(live_bytes(m, key, t2)) == Some(v),
{
}

/// On a miss the read returns exactly what the fallback gave.
pub proof fn lemma_miss_returns_fallback<T: Codec, E>(
    found: Option<Seq<u8>>,
    fallback: Result<Option<T::V>, E>,
)
    requires
        served::<T>(found) is None,
    ensures
        cache_aside_result::<T, E>(found, fallback) == fallback,
{
}

/// After a miss whose fallback gave `v`, reads of the same key serve `v` at every
/// second before the time-to-live has elapsed (but the last second of the clock, where
/// the expiry itself does not fit).
pub proof fn lemma_miss_populates<T: Codec, E>(
    m: Map<Seq<char>, StoredEntry>,
    key: Seq<char>,
    v: T::V,
    now: u64,
    ttl: u64,
    later: u64,
)
    requires
        T::encodable(v),
        now <= later,
        later < now + ttl,
        now + ttl <= u64::MAX || later < u64::MAX,
    ensures
        served::<T>(
            live_bytes(after_miss::<T, E>(m, key, now, ttl, Ok(Some(v))), key, later),
        ) == Some(v),
{
    T::lemma_round_trip(v);
}

/// An entry written with time-to-live `ttl` at second `now` is no longer served once
/// `ttl` seconds have elapsed, so the fallback runs again.
pub proof fn lemma_entry_expires<T: Codec, E>(
    m: Map<Seq<char>, StoredEntry>,
    key: Seq<char>,
    v: T::V,
    now: u64,
    ttl: u64,
    later: u64,
)
    requires
        later >= now + ttl,
    ensures
        live_bytes(after_miss::<T, E>(m, key, now, ttl, Ok(Some(v))), key, later) is None,
        served::<T>(
            live_bytes(after_miss::<T, E>(m, key, now, ttl, Ok(Some(v))), key, later),
        ) is None,
{
}

/// A cache whose pool or connection fails is a miss: `Lookup::from_read` of any failure
/// serves no value, so `complete_miss` applies and the read returns the fallback's outcome,
/// whatever becomes of the write-back.
pub proof fn lemma_unavailable_cache_degrades<T: Codec, E>(fallback: Result<Option<T::V>, E>)
    ensures
        served::<T>(Lookup::Unavailable.found()) is None,
        cache_aside_result::<T, E>(Lookup::Unavailable.found(), fallback) == fallback,
{
}

/// Bytes that do not decode are a miss: the read returns the fallback's outcome.
pub proof fn lemma_corrupt_entry_is_a_miss<T: Codec, E>(
    bytes: Seq<u8>,
    fallback: Result<Option<T::V>, E>,
)
    requires
        T::decoding(bytes) is None,
    ensures
        served::<T>(Some(bytes)) is None,
        cache_aside_result::<T, E>(Some(bytes), fallback) == fallback,
{
}

} // verus!
