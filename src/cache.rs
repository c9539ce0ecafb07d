//! A bounded cache with a time-to-live, owned by whoever serves node
//! metadata: a lookup hits only an entry stored less than `ttl` ago, and
//! when the cache is full the entry stored first makes room for a new key.

use vstd::prelude::*;

verus! {

/// One cached value and the time it was stored.
pub struct CacheEntry<V> {
    pub key: String,
    pub value: V,
    pub stored_at: u64,
}

/// Whether an entry stored at `stored_at` may still be served at `now`.
pub open spec fn is_live(stored_at: u64, ttl: u64, now: u64) -> bool {
    stored_at <= now && now - stored_at < ttl
}

/// No two entries have the same key.
pub open spec fn keys_unique<V>(entries: Seq<CacheEntry<V>>) -> bool {
    forall|i: int, j: int|
        0 <= i < entries.len() && 0 <= j < entries.len() && i != j ==> entries[i].key@
            != entries[j].key@
}

/// Whether some entry has key `key`.
pub open spec fn has_key<V>(entries: Seq<CacheEntry<V>>, key: Seq<char>) -> bool {
    exists|i: int| 0 <= i < entries.len() && entries[i].key@ == key
}

pub struct TtlCache<V> {
    entries: Vec<CacheEntry<V>>,
    capacity: usize,
    ttl: u64,
}

impl<V> TtlCache<V> {
    /// The entries, in the order their keys were first stored.
    pub closed spec fn entries(&self) -> Seq<CacheEntry<V>> {
        self.entries@
    }

    pub closed spec fn capacity(&self) -> nat {
        self.capacity as nat
    }

    pub closed spec fn ttl(&self) -> u64 {
        self.ttl
    }

    pub open spec fn wf(&self) -> bool {
        self.capacity() > 0 && self.entries().len() <= self.capacity() && keys_unique(self.entries())
    }

    /// An empty cache that holds up to `capacity` entries for `ttl` time
    /// units each.
    pub fn new(capacity: usize, ttl: u64) -> (r: TtlCache<V>)
        requires
            capacity > 0,
        ensures
            r.wf(),
            r.entries().len() == 0,
            r.capacity() == capacity,
            r.ttl() == ttl,
    {
        TtlCache { entries: Vec::new(), capacity, ttl }
    }

    /// The number of entries, live or not.
    pub fn len(&self) -> (r: usize)
        ensures
            r == self.entries().len(),
    {
        self.entries.len()
    }

    /// The position of the entry with key `key`, if any.
    fn position(&self, key: &String) -> (r: Option<usize>)
        requires
            self.wf(),
        ensures
            r matches Some(i) ==> i < self.entries().len() && self.entries()[i as int].key@ == key@,
            r is None ==> !has_key(self.entries(), key@),
    {
        let mut i: usize = 0;
        while i < self.entries.len()
            invariant
                i <= self.entries@.len(),
                forall|j: int| 0 <= j < i ==> self.entries@[j].key@ != key@,
            decreases self.entries@.len() - i,
        {
            if self.entries[i].key == *key {
                return Some(i);
            }
            i = i + 1;
        }
        None
    }

    /// The value stored under `key`, where it was stored less than `ttl`
    /// before `now`.
    pub fn get(&self, key: &String, now: u64) -> (r: Option<&V>)
        requires
            self.wf(),
        ensures
            r is Some <==> exists|i: int|
                0 <= i < self.entries().len() && self.entries()[i].key@ == key@ && is_live(
                    self.entries()[i].stored_at,
                    self.ttl(),
                    now,
                ),
            forall|i: int|
                0 <= i < self.entries().len() && self.entries()[i].key@ == key@ ==> (r matches Some(v)
                    ==> *v == self.entries()[i].value),
    {
        match self.position(key) {
            None => None,
            Some(i) => {
                let e = &self.entries[i];
                if e.stored_at <= now && now - e.stored_at < self.ttl {
                    Some(&e.value)
                } else {
                    None
                }
            },
        }
    }

    /// Stores `value` under `key` at time `now`: an entry with that key is
    /// replaced in place; else the value is appended, after the entry
    /// stored first is dropped where the cache is full.
    pub fn set(&mut self, key: String, value: V, now: u64)
        requires
            old(self).wf(),
        ensures
            final(self).wf(),
            final(self).capacity() == old(self).capacity(),
            final(self).ttl() == old(self).ttl(),
            has_key(old(self).entries(), key@) ==> forall|i: int|
                0 <= i < old(self).entries().len() && old(self).entries()[i].key@ == key@
                    ==> final(self).entries() == old(self).entries().update(
                    i,
                    CacheEntry { key, value, stored_at: now },
                ),
            !has_key(old(self).entries(), key@) && old(self).entries().len() < old(self).capacity()
                ==> final(self).entries() == old(self).entries().push(
                CacheEntry { key, value, stored_at: now },
            ),
            !has_key(old(self).entries(), key@) && old(self).entries().len() == old(self).capacity()
                ==> final(self).entries() == old(self).entries().subrange(
                1,
                old(self).entries().len() as int,
            ).push(CacheEntry { key, value, stored_at: now }),
    {
        match self.position(&key) {
            Some(i) => {
                let ghost k = key;
                self.entries.set(i, CacheEntry { key, value, stored_at: now });
                assert(forall|j: int|
                    0 <= j < old(self).entries@.len() && old(self).entries@[j].key@ == k@ ==> j
                        == i);
            },
            None => {
                if self.entries.len() == self.capacity {
                    self.entries.remove(0);
                }
                self.entries.push(CacheEntry { key, value, stored_at: now });
            },
        }
    }
}

} // verus!
