use vstd::prelude::*;

use crate::codec::append_bytes;

verus! {

/// What the store holds under one key: the bytes and the second at which they stop being served.
pub struct StoredEntry {
    pub bytes: Seq<u8>,
    pub expires_at: u64,
}

/// The second at which an entry written at `now` with time-to-live `ttl` expires
/// (the largest `u64` where the sum would not fit).
pub open spec fn expiry(now: u64, ttl: u64) -> u64 {
    if now as int + ttl as int > u64::MAX as int {
        u64::MAX
    } else {
        (now + ttl) as u64
    }
}

/// The bytes that a read of `key` at second `now` returns: those stored under it, while
/// they have not expired.
pub open spec fn live_bytes(m: Map<Seq<char>, StoredEntry>, key: Seq<char>, now: u64) -> Option<
    Seq<u8>,
> {
    if m.contains_key(key) && now < m[key].expires_at {
        Some(m[key].bytes)
    } else {
        None
    }
}

/// What a write of `bytes` under `key` at second `now` with time-to-live `ttl` leaves.
pub open spec fn stored(
    m: Map<Seq<char>, StoredEntry>,
    key: Seq<char>,
    bytes: Seq<u8>,
    now: u64,
    ttl: u64,
) -> Map<Seq<char>, StoredEntry> {
    m.insert(key, StoredEntry { bytes, expires_at: expiry(now, ttl) })
}

struct Slot {
    key: String,
    value: Vec<u8>,
    expires_at: u64,
}

impl Slot {
    spec fn entry(&self) -> StoredEntry {
        StoredEntry { bytes: self.value@, expires_at: self.expires_at }
    }
}

/// An in-process key-value store with per-entry expiry, read and written with the
/// same get / set-with-expiry semantics as a networked cache service. Time is given
/// by the caller, in seconds.
pub struct MemoryStore {
    slots: Vec<Slot>,
    contents: Ghost<Map<Seq<char>, StoredEntry>>,
}

impl View for MemoryStore {
    type V = Map<Seq<char>, StoredEntry>;

    closed spec fn view(&self) -> Map<Seq<char>, StoredEntry> {
        self.contents@
    }
}

impl MemoryStore {
    /// Each slot is in the contents, each key of the contents has a slot, and no key has two.
    pub closed spec fn wf(&self) -> bool {
        &&& forall|i: int|
            0 <= i < self.slots@.len() ==> #[trigger] self.contents@.contains_key(
                self.slots@[i].key@,
            ) && self.contents@[self.slots@[i].key@] == self.slots@[i].entry()
        &&& forall|k: Seq<char>|
            #[trigger] self.contents@.contains_key(k) ==> exists|i: int|
                0 <= i < self.slots@.len() && self.slots@[i].key@ == k
        &&& forall|i: int, j: int|
            0 <= i < self.slots@.len() && 0 <= j < self.slots@.len() && i != j
                ==> #[trigger] self.slots@[i].key@ != #[trigger] self.slots@[j].key@
    }

    /// An empty store.
    pub fn new() -> (r: MemoryStore)
        ensures
            r.wf(),
            r@ == Map::<Seq<char>, StoredEntry>::empty(),
    {
        MemoryStore { slots: Vec::new(), contents: Ghost(Map::empty()) }
    }

    fn find(&self, key: &String) -> (r: Option<usize>)
        ensures
            r matches Some(i) ==> i < self.slots@.len() && self.slots@[i as int].key@ == key@,
            r is None ==> forall|i: int| 0 <= i < self.slots@.len() ==> self.slots@[i].key@ != key@,
    {
        let mut i: usize = 0;
        while i < self.slots.len()
            invariant
                i <= self.slots@.len(),
                forall|j: int| 0 <= j < i ==> self.slots@[j].key@ != key@,
            decreases self.slots@.len() - i,
        {
            if self.slots[i].key == *key {
                return Some(i);
            }
            i = i + 1;
        }
        None
    }

    /// The bytes stored under `key`, unless there are none or they expired before `now`.
    pub fn get(&self, key: &String, now: u64) -> (r: Option<Vec<u8>>)
        requires
            self.wf(),
        ensures
            r is None <==> live_bytes(self@, key@, now) is None,
            r matches Some(b) ==> live_bytes(self@, key@, now) == Some(b@),
    {
        match self.find(key) {
            Some(i) => {
                let slot = &self.slots[i];
                assert(self.contents@.contains_key(self.slots@[i as int].key@));
                if now < slot.expires_at {
                    let mut out: Vec<u8> = Vec::new();
                    append_bytes(&mut out, slot.value.as_slice());
                    Some(out)
                } else {
                    None
                }
            },
            None => {
                assert(!self.contents@.contains_key(key@));
                None
            },
        }
    }

    /// Stores `bytes` under `key`, replacing what was there, to be served until `ttl`
    /// seconds after `now`.
    pub fn set(&mut self, key: &String, bytes: &[u8], ttl: u64, now: u64)
        requires
            old(self).wf(),
        ensures
            final(self).wf(),
            final(self)@ == stored(old(self)@, key@, bytes@, now, ttl),
    {
        let mut value: Vec<u8> = Vec::new();
        append_bytes(&mut value, bytes);
        let slot = Slot { key: key.clone(), value, expires_at: now.saturating_add(ttl) };
        let ghost m = stored(self@, key@, bytes@, now, ttl);
        let ghost mut w: int = 0;
        match self.find(key) {
            Some(i) => {
                self.slots.set(i, slot);
                proof {
                    w = i as int;
                }
            },
            None => {
                self.slots.push(slot);
                proof {
                    w = self.slots@.len() - 1;
                }
            },
        }
        self.contents = Ghost(m);
        assert(self.slots@[w].entry() == m[key@]);
        assert forall|i: int| 0 <= i < self.slots@.len() && i != w implies self.slots@[i]
            == old(self).slots@[i] && self.slots@[i].key@ != key@ by {
            assert(old(self).slots@[i].key@ != old(self).slots@[w].key@ || w == old(
                self,
            ).slots@.len());
        }
        assert forall|k: Seq<char>| #[trigger] self.contents@.contains_key(k) implies exists|i: int|
            0 <= i < self.slots@.len() && self.slots@[i].key@ == k by {
            if k != key@ {
                let i = choose|i: int|
                    0 <= i < old(self).slots@.len() && old(self).slots@[i].key@ == k;
                assert(self.slots@[i].key@ == k);
            } else {
                assert(self.slots@[w].key@ == k);
            }
        }
    }
}

} // verus!
