use std::cell::Cell;

use cache_aside::codec::Codec;
use cache_aside::executor::{
    cached_value, complete_miss, write_back, CacheAside, CacheError, ConfigError, Lookup,
};
use cache_aside::store::MemoryStore;
use cache_aside::user::User;

fn user42() -> User {
    User {
        id: 42,
        first_name: String::from("Ann"),
        last_name: String::from("Lee"),
        language_code: String::from("en"),
        allows_write_to_pm: true,
        photo_url: String::new(),
    }
}

fn read(
    cache: &CacheAside,
    store: &mut MemoryStore,
    key: &str,
    now: u64,
    calls: &Cell<u32>,
    answer: Result<Option<User>, String>,
) -> Result<Option<User>, String> {
    cache.execute(store, &String::from(key), now, || {
        calls.set(calls.get() + 1);
        answer
    })
}

#[test]
fn new_rejects_zero_and_negative_ttl() {
    assert_eq!(CacheAside::new(0).err(), Some(ConfigError::InvalidConfiguration));
    assert_eq!(CacheAside::new(-5).err(), Some(ConfigError::InvalidConfiguration));
    assert_eq!(CacheAside::new(600).unwrap().ttl(), 600);
    assert_eq!(CacheAside::new(1).unwrap().ttl(), 1);
}

#[test]
fn user_key_scenario_with_ten_minute_ttl() {
    let cache = CacheAside::new(600).unwrap();
    let mut store = MemoryStore::new();
    let calls = Cell::new(0);

    let first = read(&cache, &mut store, "user:42", 1000, &calls, Ok(Some(user42())));
    assert_eq!(first, Ok(Some(user42())));
    assert_eq!(calls.get(), 1);
    assert_eq!(store.get(&String::from("user:42"), 1000), Some(user42().encode()));
    assert_eq!(store.get(&String::from("user:42"), 1599), Some(user42().encode()));
    assert_eq!(store.get(&String::from("user:42"), 1600), None);

    let second = read(&cache, &mut store, "user:42", 1300, &calls, Ok(None));
    assert_eq!(second, Ok(Some(user42())));
    assert_eq!(calls.get(), 1);

    let third = read(&cache, &mut store, "user:42", 1600, &calls, Ok(Some(user42())));
    assert_eq!(third, Ok(Some(user42())));
    assert_eq!(calls.get(), 2);
}

#[test]
fn repeated_hits_skip_fallback() {
    let cache = CacheAside::new(60).unwrap();
    let mut store = MemoryStore::new();
    store.set(&String::from("user:1"), &user42().encode(), 60, 0);
    let calls = Cell::new(0);
    for t in 0..60u64 {
        let r = read(&cache, &mut store, "user:1", t, &calls, Err(String::from("db down")));
        assert_eq!(r, Ok(Some(user42())));
    }
    assert_eq!(calls.get(), 0);
}

#[test]
fn miss_runs_fallback_once_and_returns_it() {
    let cache = CacheAside::new(60).unwrap();
    let mut store = MemoryStore::new();
    let calls = Cell::new(0);
    let r = read(&cache, &mut store, "user:7", 5, &calls, Ok(Some(user42())));
    assert_eq!(r, Ok(Some(user42())));
    assert_eq!(calls.get(), 1);
}

#[test]
fn miss_populates_for_the_ttl_window() {
    let cache = CacheAside::new(10).unwrap();
    let mut store = MemoryStore::new();
    let calls = Cell::new(0);
    read(&cache, &mut store, "k", 100, &calls, Ok(Some(user42()))).unwrap();
    let r = read(&cache, &mut store, "k", 109, &calls, Ok(None));
    assert_eq!(r, Ok(Some(user42())));
    assert_eq!(calls.get(), 1);
}

#[test]
fn entry_expires_after_ttl() {
    let cache = CacheAside::new(10).unwrap();
    let mut store = MemoryStore::new();
    let calls = Cell::new(0);
    read(&cache, &mut store, "k", 100, &calls, Ok(Some(user42()))).unwrap();
    let r = read(&cache, &mut store, "k", 110, &calls, Ok(None));
    assert_eq!(r, Ok(None));
    assert_eq!(calls.get(), 2);
}

#[test]
fn fallback_error_is_returned_and_nothing_written() {
    let cache = CacheAside::new(10).unwrap();
    let mut store = MemoryStore::new();
    let calls = Cell::new(0);
    let r = read(&cache, &mut store, "k", 0, &calls, Err(String::from("db down")));
    assert_eq!(r, Err(String::from("db down")));
    assert_eq!(store.get(&String::from("k"), 0), None);
}

#[test]
fn absence_is_not_cached() {
    let cache = CacheAside::new(10).unwrap();
    let mut store = MemoryStore::new();
    let calls = Cell::new(0);
    assert_eq!(read(&cache, &mut store, "k", 0, &calls, Ok(None)), Ok(None));
    assert_eq!(store.get(&String::from("k"), 0), None);
    let r = read(&cache, &mut store, "k", 1, &calls, Ok(Some(user42())));
    assert_eq!(r, Ok(Some(user42())));
    assert_eq!(calls.get(), 2);
}

#[test]
fn corrupt_entry_falls_back_and_is_replaced() {
    let cache = CacheAside::new(10).unwrap();
    let mut store = MemoryStore::new();
    store.set(&String::from("k"), &[1, 2, 3], 10, 0);
    let calls = Cell::new(0);
    let r = read(&cache, &mut store, "k", 1, &calls, Ok(Some(user42())));
    assert_eq!(r, Ok(Some(user42())));
    assert_eq!(calls.get(), 1);
    assert_eq!(store.get(&String::from("k"), 1), Some(user42().encode()));
}

/// One read driven step by step, as a caller with a remote cache does it.
fn read_with_steps(
    read: Result<Option<Vec<u8>>, CacheError>,
    calls: &Cell<u32>,
    answer: Result<Option<User>, String>,
) -> (Result<Option<User>, String>, Option<Vec<u8>>) {
    let lookup = Lookup::from_read(read);
    if let Some(v) = cached_value::<User>(&lookup) {
        return (Ok(Some(v)), None);
    }
    calls.set(calls.get() + 1);
    complete_miss(&lookup, answer)
}

#[test]
fn unavailable_cache_degrades_to_fallback() {
    for e in [CacheError::PoolExhausted, CacheError::ConnectionError] {
        let calls = Cell::new(0);
        let (r, bytes) = read_with_steps(Err(e), &calls, Ok(Some(user42())));
        assert_eq!(r, Ok(Some(user42())));
        assert_eq!(bytes, Some(user42().encode()));
        assert_eq!(calls.get(), 1);

        let (r, bytes) = read_with_steps(Err(e), &calls, Ok(None));
        assert_eq!(r, Ok(None));
        assert_eq!(bytes, None);

        let (r, bytes) = read_with_steps(Err(e), &calls, Err(String::from("db down")));
        assert_eq!(r, Err(String::from("db down")));
        assert_eq!(bytes, None);
        assert_eq!(calls.get(), 3);
    }
}

#[test]
fn stepwise_hit_skips_fallback() {
    let calls = Cell::new(0);
    let (r, bytes) = read_with_steps(Ok(Some(user42().encode())), &calls, Err(String::from("x")));
    assert_eq!(r, Ok(Some(user42())));
    assert_eq!(bytes, None);
    assert_eq!(calls.get(), 0);
}

#[test]
fn lookup_steps_decode_or_miss() {
    let hit = Lookup::Present(user42().encode());
    assert_eq!(cached_value::<User>(&hit), Some(user42()));
    assert_eq!(cached_value::<User>(&Lookup::Present(vec![0xff])), None);
    let none: Result<Option<User>, String> = Ok(None);
    assert_eq!(write_back(&none), None);
    let err: Result<Option<User>, String> = Err(String::from("e"));
    assert_eq!(write_back(&err), None);
}

#[test]
fn store_overwrites_and_keeps_keys_apart() {
    let mut store = MemoryStore::new();
    let a = String::from("user:1");
    let b = String::from("user:2");
    store.set(&a, &[1], 5, 0);
    store.set(&b, &[2], 5, 0);
    store.set(&a, &[3, 4], 100, 10);
    assert_eq!(store.get(&a, 50), Some(vec![3, 4]));
    assert_eq!(store.get(&b, 4), Some(vec![2]));
    assert_eq!(store.get(&b, 5), None);
    assert_eq!(store.get(&String::from("user:3"), 0), None);
}

#[test]
fn store_expiry_saturates_at_end_of_clock() {
    let mut store = MemoryStore::new();
    let k = String::from("k");
    store.set(&k, &[9], u64::MAX, 10);
    assert_eq!(store.get(&k, u64::MAX - 1), Some(vec![9]));
    assert_eq!(store.get(&k, u64::MAX), None);
}

#[test]
fn cache_failures_read_as_unavailable() {
    assert_eq!(Lookup::from_read(Err(CacheError::PoolExhausted)), Lookup::Unavailable);
    assert_eq!(Lookup::from_read(Err(CacheError::ConnectionError)), Lookup::Unavailable);
    assert_eq!(Lookup::from_read(Ok(None)), Lookup::Absent);
    assert_eq!(Lookup::from_read(Ok(Some(vec![5, 6]))), Lookup::Present(vec![5, 6]));
    let lookup = Lookup::from_read(Err(CacheError::PoolExhausted));
    assert_eq!(cached_value::<User>(&lookup), None);
}
