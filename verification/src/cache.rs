//! A bounded, recency-ordered store of resolved documents with lazy expiry.

use vstd::prelude::*;
use crate::lru_model::{Slot, LruSlots, MAX_CAPACITY, moved_to_front, lru_slots, lru_limit, lru_new,
    lru_len, lru_get_mut, lru_pop, lru_put};
use crate::response::DIDJsonResponse;
use crate::clock::{instant_now, instant_elapsed, duration_as_nanos};
use std::time::Instant;

verus! {

/// The number of entries the gateway's store holds at most.
pub const CACHE_CAPACITY: usize = 100;

/// The age, in nanoseconds, up to which the gateway serves a stored entry:
/// sixty seconds.
pub const CACHE_TTL_NANOS: u128 = 60_000_000_000;

/// How long ago `stamp` lies at time `now`; never negative.
pub open spec fn age(now: u128, stamp: u128) -> nat {
    if now >= stamp {
        (now - stamp) as nat
    } else {
        0
    }
}

/// The store as a mathematical value: its entries, most recently used first,
/// the most it may hold, and the age up to which an entry is served.
pub struct StoreModel {
    pub slots: Seq<Slot>,
    pub capacity: nat,
    pub ttl: nat,
}

impl StoreModel {
    /// No key occurs twice, and the entries fit the capacity, which is positive.
    pub open spec fn wf(self) -> bool {
        &&& self.capacity > 0
        &&& self.slots.len() <= self.capacity
        &&& forall|i: int, j: int|
            0 <= i < j < self.slots.len() ==> (#[trigger] self.slots[i]).0 != (#[trigger] self.slots[j]).0
    }

    /// Whether an entry for `key` is held, fresh or not.
    pub open spec fn holds(self, key: Seq<char>) -> bool {
        exists|i: int| 0 <= i < self.slots.len() && (#[trigger] self.slots[i]).0 == key
    }

    /// The position of the entry for `key`, where one is held.
    pub open spec fn position(self, key: Seq<char>) -> int {
        choose|i: int| 0 <= i < self.slots.len() && (#[trigger] self.slots[i]).0 == key
    }

    /// Whether the entry at `i` may still be served at time `now`.
    pub open spec fn fresh_at(self, i: int, now: u128) -> bool {
        age(now, self.slots[i].1.0) <= self.ttl
    }

    /// The store after a lookup of `key` at time `now`: a fresh entry becomes
    /// the most recently used, a stale one is dropped.
    pub open spec fn after_get(self, key: Seq<char>, now: u128) -> StoreModel {
        if !self.holds(key) {
            self
        } else if self.fresh_at(self.position(key), now) {
            StoreModel { slots: moved_to_front(self.slots, self.position(key)), ..self }
        } else {
            StoreModel { slots: self.slots.remove(self.position(key)), ..self }
        }
    }

    /// What a lookup of `key` at time `now` yields: the body of a fresh
    /// entry, or nothing.
    pub open spec fn lookup(self, key: Seq<char>, now: u128) -> Option<Seq<char>> {
        if self.holds(key) && self.fresh_at(self.position(key), now) {
            Some(self.slots[self.position(key)].1.1)
        } else {
            None
        }
    }

    /// The store after `body` was stored under `key` at time `now`.
    pub open spec fn after_put(self, key: Seq<char>, body: Seq<char>, now: u128) -> StoreModel {
        let fresh: Slot = (key, (now, body));
        if self.holds(key) {
            StoreModel { slots: seq![fresh] + self.slots.remove(self.position(key)), ..self }
        } else if self.slots.len() == self.capacity {
            StoreModel { slots: seq![fresh] + self.slots.drop_last(), ..self }
        } else {
            StoreModel { slots: seq![fresh] + self.slots, ..self }
        }
    }
}

impl StoreModel {
    /// In a well-formed store the entry for a key that is held is at exactly
    /// one position.
    pub proof fn lemma_position(self, key: Seq<char>)
        requires
            self.wf(),
            self.holds(key),
        ensures
            0 <= self.position(key) < self.slots.len(),
            self.slots[self.position(key)].0 == key,
            forall|i: int|
                0 <= i < self.slots.len() && (#[trigger] self.slots[i]).0 == key ==> i == self.position(key),
    {
        let p = self.position(key);
        assert forall|i: int| 0 <= i < self.slots.len() && (#[trigger] self.slots[i]).0 == key implies i == p by {
            if i < p {
                assert(self.slots[i].0 != self.slots[p].0);
            } else if p < i {
                assert(self.slots[p].0 != self.slots[i].0);
            }
        }
    }

    /// Moving an entry to the front keeps a store well-formed.
    pub proof fn lemma_promote_wf(self, i: int)
        requires
            self.wf(),
            0 <= i < self.slots.len(),
        ensures
            (StoreModel { slots: moved_to_front(self.slots, i), ..self }).wf(),
    {
        let s = moved_to_front(self.slots, i);
        assert(s.len() == self.slots.len());
        let src = |x: int| if x == 0 { i } else if x - 1 < i { x - 1 } else { x };
        assert forall|a: int, b: int| 0 <= a < b < s.len() implies (#[trigger] s[a]).0 != (#[trigger] s[b]).0 by {
            assert(s[a] == self.slots[src(a)]);
            assert(s[b] == self.slots[src(b)]);
            if src(a) < src(b) {
                assert(self.slots[src(a)].0 != self.slots[src(b)].0);
            } else {
                assert(self.slots[src(b)].0 != self.slots[src(a)].0);
            }
        }
    }

    /// Removing an entry keeps a store well-formed, and its key is then gone.
    pub proof fn lemma_remove_wf(self, i: int)
        requires
            self.wf(),
            0 <= i < self.slots.len(),
        ensures
            (StoreModel { slots: self.slots.remove(i), ..self }).wf(),
            !(StoreModel { slots: self.slots.remove(i), ..self }).holds(self.slots[i].0),
    {
        let s = self.slots.remove(i);
        let src = |x: int| if x < i { x } else { x + 1 };
        assert forall|a: int, b: int| 0 <= a < b < s.len() implies (#[trigger] s[a]).0 != (#[trigger] s[b]).0 by {
            assert(s[a] == self.slots[src(a)]);
            assert(s[b] == self.slots[src(b)]);
            assert(self.slots[src(a)].0 != self.slots[src(b)].0);
        }
        assert forall|a: int| 0 <= a < s.len() implies (#[trigger] s[a]).0 != self.slots[i].0 by {
            assert(s[a] == self.slots[src(a)]);
            if src(a) < i {
                assert(self.slots[src(a)].0 != self.slots[i].0);
            } else {
                assert(self.slots[i].0 != self.slots[src(a)].0);
            }
        }
    }

    /// A lookup keeps a store well-formed.
    pub proof fn lemma_after_get_wf(self, key: Seq<char>, now: u128)
        requires
            self.wf(),
        ensures
            self.after_get(key, now).wf(),
    {
        if self.holds(key) {
            self.lemma_position(key);
            self.lemma_promote_wf(self.position(key));
            self.lemma_remove_wf(self.position(key));
        }
    }

    /// A write keeps a store well-formed.
    pub proof fn lemma_after_put_wf(self, key: Seq<char>, body: Seq<char>, now: u128)
        requires
            self.wf(),
        ensures
            self.after_put(key, body, now).wf(),
    {
        let fresh: Slot = (key, (now, body));
        let rest = if self.holds(key) {
            self.slots.remove(self.position(key))
        } else if self.slots.len() == self.capacity {
            self.slots.drop_last()
        } else {
            self.slots
        };
        let s = seq![fresh] + rest;
        assert(self.after_put(key, body, now).slots == s);
        if self.holds(key) {
            self.lemma_position(key);
            self.lemma_remove_wf(self.position(key));
        } else {
            assert forall|a: int| 0 <= a < rest.len() implies (#[trigger] rest[a]).0 != key by {
                assert(rest[a] == self.slots[a]);
            }
            assert forall|a: int, b: int| 0 <= a < b < rest.len() implies (#[trigger] rest[a]).0 != (
            #[trigger] rest[b]).0 by {
                assert(rest[a] == self.slots[a]);
                assert(rest[b] == self.slots[b]);
            }
        }
        let kept = StoreModel { slots: rest, ..self };
        assert(!kept.holds(key));
        assert(kept.wf());
        assert forall|a: int, b: int| 0 <= a < b < s.len() implies (#[trigger] s[a]).0 != (#[trigger] s[b]).0 by {
            assert(s[b] == rest[b - 1]);
            if a == 0 {
                assert(s[a] == fresh);
            } else {
                assert(s[a] == rest[a - 1]);
            }
        }
    }
}

/// The body carried by an optional response, as characters.
pub open spec fn body_of(r: Option<DIDJsonResponse>) -> Option<Seq<char>> {
    match r {
        Some(resp) => Some(resp.0@),
        None => None,
    }
}

/// A fixed-capacity store of resolved documents, ordered by recency of use,
/// whose entries stop being served once they are older than the store's
/// time to live.
pub struct CacheStore {
    slots: LruSlots,
    ttl: u128,
    started: Instant,
}

impl CacheStore {
    /// The store's contents and limits as a mathematical value.
    pub closed spec fn model(&self) -> StoreModel {
        StoreModel { slots: lru_slots(self.slots), capacity: lru_limit(self.slots), ttl: self.ttl as nat }
    }

    /// The store is as its constructor and methods leave it: no key twice,
    /// and never more entries than its capacity.
    pub open spec fn wf(&self) -> bool {
        self.model().wf()
    }

    /// An empty store for at most `capacity` entries, each served until it is
    /// older than `ttl` nanoseconds, or nothing where the capacity is zero or
    /// above [`MAX_CAPACITY`].
    pub fn try_new(capacity: usize, ttl: u128) -> (store: Option<CacheStore>)
        ensures
            store is Some <==> 0 < capacity <= MAX_CAPACITY,
            store matches Some(s) ==> s.wf() && s.model() == (StoreModel {
                slots: Seq::empty(),
                capacity: capacity as nat,
                ttl: ttl as nat,
            }),
    {
        if 0 < capacity && capacity <= MAX_CAPACITY {
            Some(CacheStore::new(capacity, ttl))
        } else {
            None
        }
    }

    /// An empty store for at most `capacity` entries, each served until it is
    /// older than `ttl` nanoseconds. The capacity is positive and at most
    /// [`MAX_CAPACITY`].
    pub fn new(capacity: usize, ttl: u128) -> (store: CacheStore)
        requires
            0 < capacity <= MAX_CAPACITY,
        ensures
            store.wf(),
            store.model() == (StoreModel { slots: Seq::empty(), capacity: capacity as nat, ttl: ttl as nat }),
    {
        CacheStore { slots: lru_new(capacity), ttl, started: instant_now() }
    }

    /// Looks `key` up at time `now`, in nanoseconds on the store's clock.
    /// A fresh entry is handed out and becomes the most recently used; a
    /// stale one is removed and nothing is handed out.
    pub fn get_at(&mut self, key: &str, now: u128) -> (found: Option<DIDJsonResponse>)
        requires
            old(self).wf(),
        ensures
            final(self).wf(),
            final(self).model() == old(self).model().after_get(key@, now),
            body_of(found) == old(self).model().lookup(key@, now),
    {
        let ghost before = self.model();
        match lru_get_mut(&mut self.slots, key) {
            Some((stamp, body)) => {
                let ghost i = before.position(key@);
                proof {
                    before.lemma_position(key@);
                    before.lemma_promote_wf(i);
                }
                let old_enough: bool = now >= stamp && now - stamp > self.ttl;
                if old_enough {
                    let _ = lru_pop(&mut self.slots, key);
                    proof {
                        let moved = StoreModel { slots: moved_to_front(before.slots, i), ..before };
                        assert(moved.slots[0].0 == key@);
                        moved.lemma_position(key@);
                        assert(moved.position(key@) == 0);
                        assert(moved.slots.remove(0) =~= before.slots.remove(i));
                        before.lemma_remove_wf(i);
                    }
                    None
                } else {
                    Some(DIDJsonResponse(body))
                }
            },
            None => None,
        }
    }

    /// Stores `response` under `key`, stamped with the time `now`, as the most
    /// recently used entry. An entry with the same key is replaced; otherwise
    /// a full store first drops its least recently used entry.
    pub fn put_at(&mut self, key: String, response: DIDJsonResponse, now: u128)
        requires
            old(self).wf(),
        ensures
            final(self).wf(),
            final(self).model() == old(self).model().after_put(key@, response.0@, now),
    {
        let ghost before = self.model();
        let ghost k = key@;
        let ghost b = response.0@;
        let replaced = lru_put(&mut self.slots, key, now, response.0);
        proof {
            if replaced is Some {
                before.lemma_position(k);
            }
            before.lemma_after_put_wf(k, b, now);
        }
    }

    /// The time on the store's clock: nanoseconds since the store was made.
    pub fn now(&self) -> u128 {
        let elapsed = instant_elapsed(&self.started);
        duration_as_nanos(&elapsed)
    }

    /// Looks `key` up at the present time; see [`CacheStore::get_at`]. What
    /// the clock shows is not known beforehand, so the outcome is that of a
    /// lookup at some time.
    pub fn get(&mut self, key: &str) -> (found: Option<DIDJsonResponse>)
        requires
            old(self).wf(),
        ensures
            final(self).wf(),
            exists|now: u128|
                final(self).model() == #[trigger] old(self).model().after_get(key@, now)
                && body_of(found) == old(self).model().lookup(key@, now),
    {
        let now: u128 = self.now();
        self.get_at(key, now)
    }

    /// Stores `response` under `key`, stamped with the present time; see
    /// [`CacheStore::put_at`].
    pub fn put(&mut self, key: String, response: DIDJsonResponse)
        requires
            old(self).wf(),
        ensures
            final(self).wf(),
            exists|now: u128|
                final(self).model() == #[trigger] old(self).model().after_put(key@, response.0@, now),
    {
        let now: u128 = self.now();
        self.put_at(key, response, now)
    }

    /// The number of entries held, stale ones included.
    pub fn len(&self) -> (n: usize)
        requires
            self.wf(),
        ensures
            n == self.model().slots.len(),
            n <= self.model().capacity,
    {
        lru_len(&self.slots)
    }
}

} // verus!
