use vstd::prelude::*;

use crate::codec::Codec;
use crate::store::{live_bytes, stored, MemoryStore, StoredEntry};

verus! {

/// Why an executor could not be built.
#[derive(Clone, Copy, Debug, PartialEq, Eq)]
pub enum ConfigError {
    /// The time-to-live was zero or negative.
    InvalidConfiguration,
}

/// A failure of the cache layer. Neither ever fails a read: both count as a miss.
#[derive(Clone, Copy, Debug, PartialEq, Eq)]
pub enum CacheError {
    /// No pooled connection became free in time.
    PoolExhausted,
    /// The cache service could not be reached or answered with an error.
    ConnectionError,
}

/// What reading the cache gave: no connection or a transport failure, no entry, or
/// the entry's bytes.
#[derive(Clone, Debug, PartialEq, Eq)]
pub enum Lookup {
    Unavailable,
    Absent,
    Present(Vec<u8>),
}

impl Lookup {
    /// The lookup that a read of the cache amounts to: a failure of the cache layer is
    /// `Unavailable`, an answer without bytes is `Absent`.
    pub fn from_read(read: Result<Option<Vec<u8>>, CacheError>) -> (r: Lookup)
        ensures
            read is Err ==> r == Lookup::Unavailable,
            read matches Ok(None) ==> r == Lookup::Absent,
            read matches Ok(Some(b)) ==> r == Lookup::Present(b),
    {
        match read {
            Ok(Some(b)) => Lookup::Present(b),
            Ok(None) => Lookup::Absent,
            Err(_) => Lookup::Unavailable,
        }
    }

    /// The bytes the cache handed back, if any.
    pub open spec fn found(&self) -> Option<Seq<u8>> {
        match self {
            Lookup::Present(b) => Some(b@),
            _ => None,
        }
    }
}

/// The value that cached bytes serve: what they decode to, or nothing where there are
/// no bytes or they do not decode (a miss).
pub open spec fn served<T: Codec>(found: Option<Seq<u8>>) -> Option<T::V> {
    match found {
        Some(b) => T::decoding(b),
        None => None,
    }
}

/// The outcome of a fallback, seen through the value's view.
pub open spec fn outcome_view<T: Codec, E>(r: Result<Option<T>, E>) -> Result<Option<T::V>, E> {
    match r {
        Ok(Some(v)) => Ok(Some(v@)),
        Ok(None) => Ok(None),
        Err(e) => Err(e),
    }
}

/// What one cache-aside read returns, given what the cache handed back and what the
/// fallback gives when it is run: the cached value on a hit, else the fallback's outcome.
pub open spec fn cache_aside_result<T: Codec, E>(
    found: Option<Seq<u8>>,
    fallback: Result<Option<T::V>, E>,
) -> Result<Option<T::V>, E> {
    match served::<T>(found) {
        Some(v) => Ok(Some(v)),
        None => fallback,
    }
}

/// The bytes a miss writes back: the encoding of the fallback's value, and nothing
/// where it gave no value or failed.
pub open spec fn write_back_bytes<T: Codec, E>(fallback: Result<Option<T::V>, E>) -> Option<
    Seq<u8>,
> {
    match fallback {
        Ok(Some(v)) => Some(T::encoding(v)),
        _ => None,
    }
}

/// The store after a miss whose fallback gave `fallback`, at second `now`.
pub open spec fn after_miss<T: Codec, E>(
    m: Map<Seq<char>, StoredEntry>,
    key: Seq<char>,
    now: u64,
    ttl: u64,
    fallback: Result<Option<T::V>, E>,
) -> Map<Seq<char>, StoredEntry> {
    match write_back_bytes::<T, E>(fallback) {
        Some(b) => stored(m, key, b, now, ttl),
        None => m,
    }
}

/// The value cached bytes serve, decoded; `None` on a miss.
pub fn cached_value<T: Codec>(lookup: &Lookup) -> (r: Option<T>)
    ensures
        r is None <==> served::<T>(lookup.found()) is None,
        r matches Some(v) ==> served::<T>(lookup.found()) == Some(v@),
{
    match lookup {
        Lookup::Present(b) => T::decode(b.as_slice()),
        _ => None,
    }
}

/// The bytes to write back after a miss whose fallback gave `outcome`.
pub fn write_back<T: Codec, E>(outcome: &Result<Option<T>, E>) -> (r: Option<Vec<u8>>)
    ensures
        r is None <==> write_back_bytes::<T, E>(outcome_view(*outcome)) is None,
        r matches Some(b) ==> write_back_bytes::<T, E>(outcome_view(*outcome)) == Some(b@),
        outcome matches Ok(Some(v)) ==> T::encodable(v@),
{
    match outcome {
        Ok(Some(v)) => Some(v.encode()),
        _ => None,
    }
}

/// Completes a read that missed (`lookup` serves no value) once the fallback has given
/// `outcome`: returns what the read returns, which is `outcome` itself, and the bytes to
/// write back under the key, if any. Whether that write succeeds changes nothing.
pub fn complete_miss<T: Codec, E>(lookup: &Lookup, outcome: Result<Option<T>, E>) -> (r: (
    Result<Option<T>, E>,
    Option<Vec<u8>>,
))
    requires
        served::<T>(lookup.found()) is None,
    ensures
        r.0 == outcome,
        outcome_view(r.0) == cache_aside_result::<T, E>(lookup.found(), outcome_view(outcome)),
        r.1 is None <==> write_back_bytes::<T, E>(outcome_view(outcome)) is None,
        r.1 matches Some(b) ==> write_back_bytes::<T, E>(outcome_view(outcome)) == Some(b@),
        outcome matches Ok(Some(v)) ==> T::encodable(v@),
{
    let bytes = write_back(&outcome);
    (outcome, bytes)
}

/// Cache-aside reads of one entity type, each entry written with the same time-to-live.
pub struct CacheAside {
    ttl: u64,
}

impl CacheAside {
    /// The time-to-live of every entry this executor writes, in seconds.
    pub closed spec fn ttl_secs(&self) -> u64 {
        self.ttl
    }

    pub closed spec fn wf(&self) -> bool {
        self.ttl > 0
    }

    /// An executor whose entries live `ttl` seconds; a zero or negative `ttl` is refused.
    pub fn new(ttl: i64) -> (r: Result<CacheAside, ConfigError>)
        ensures
            r is Err <==> ttl <= 0,
            r matches Err(e) ==> e == ConfigError::InvalidConfiguration,
            r matches Ok(c) ==> c.wf() && c.ttl_secs() == ttl,
    {
        if ttl <= 0 {
            Err(ConfigError::InvalidConfiguration)
        } else {
            Ok(CacheAside { ttl: ttl as u64 })
        }
    }

    /// The time-to-live of every entry this executor writes, in seconds.
    pub fn ttl(&self) -> (r: u64)
        ensures
            r == self.ttl_secs(),
    {
        self.ttl
    }

    /// Reads `key` at second `now` through `store`: on a live entry that decodes, returns its
    /// value and leaves the store as it was, without running `fallback`; otherwise runs
    /// `fallback` once, writes its value back with this executor's time-to-live, and
    /// returns its outcome, failure included. Absence is not written.
    pub fn execute<T: Codec, E, F: FnOnce() -> Result<Option<T>, E>>(
        &self,
        store: &mut MemoryStore,
        key: &String,
        now: u64,
        fallback: F,
    ) -> (r: Result<Option<T>, E>)
        requires
            old(store).wf(),
            served::<T>(live_bytes(old(store)@, key@, now)) is None ==> fallback.requires(()),
        ensures
            final(store).wf(),
            served::<T>(live_bytes(old(store)@, key@, now)) matches Some(v) ==> outcome_view(r)
                == Ok::<Option<T::V>, E>(Some(v)) && final(store)@ == old(store)@,
            served::<T>(live_bytes(old(store)@, key@, now)) is None ==> fallback.ensures((), r)
                && final(store)@ == after_miss::<T, E>(
                old(store)@,
                key@,
                now,
                self.ttl_secs(),
                outcome_view(r),
            ),
            served::<T>(live_bytes(old(store)@, key@, now)) is None ==> (r matches Ok(Some(v))
                ==> T::encodable(v@)),
    {
        let lookup = match store.get(key, now) {
            Some(b) => Lookup::Present(b),
            None => Lookup::Absent,
        };
        match cached_value::<T>(&lookup) {
            Some(v) => Ok(Some(v)),
            None => {
                let (result, bytes) = complete_miss(&lookup, fallback());
                match bytes {
                    Some(b) => store.set(key, b.as_slice(), self.ttl, now),
                    None => {},
                }
                result
            },
        }
    }
}

} // verus!
