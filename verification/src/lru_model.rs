//! The `lru` crate's cache as the store sees it: a sequence of entries,
//! most recently used first, and the calls that reorder, add and remove them.
//!
//! Everything stated here about `lru::LruCache` is taken on trust from that
//! crate; the store built on top is proved against these statements.

use vstd::prelude::*;

verus! {

/// An `lru::LruCache` from keys to stamped bodies. Its default hasher is a
/// type the verifier cannot see, so the cache is held as a whole behind this
/// struct and reached only through the calls below.
#[verifier::external_body]
pub struct LruSlots {
    inner: lru::LruCache<String, (u128, String)>,
}

/// One cached item in the model: the key's characters, then the stamp and the
/// characters of the stored body.
pub type Slot = (Seq<char>, (u128, Seq<char>));

/// What an LRU cache holds, most recently used first.
pub uninterp spec fn lru_slots(c: LruSlots) -> Seq<Slot>;

/// The number of entries an LRU cache was created to hold at most.
pub uninterp spec fn lru_limit(c: LruSlots) -> nat;

/// No slot of `slots` carries `key`.
pub open spec fn lacks_key(slots: Seq<Slot>, key: Seq<char>) -> bool {
    forall|i: int| 0 <= i < slots.len() ==> (#[trigger] slots[i]).0 != key
}

/// `slots` with the slot at `i` moved to the front.
pub open spec fn moved_to_front(slots: Seq<Slot>, i: int) -> Seq<Slot> {
    seq![slots[i]] + slots.remove(i)
}

/// The largest capacity a cache is made with. `LruCache::new` sets up a hash
/// table for as many entries as the cache may hold, and refuses by a panic a
/// table whose size in bytes does not fit the address space; up to this
/// number of entries it fits, on 32-bit machines too.
pub const MAX_CAPACITY: usize = 16_777_216;

/// `LruCache::new`: an empty cache that holds at most `cap` entries. It
/// panics on a capacity of zero and on one too large for a hash table.
#[verifier::external_body]
pub(crate) fn lru_new(cap: usize) -> (c: LruSlots)
    requires
        0 < cap <= MAX_CAPACITY,
    ensures
        lru_slots(c) == Seq::<Slot>::empty(),
        lru_limit(c) == cap,
{
    LruSlots { inner: lru::LruCache::new(std::num::NonZeroUsize::new(cap).unwrap()) }
}

/// `LruCache::len`: the number of entries held.
#[verifier::external_body]
pub(crate) fn lru_len(c: &LruSlots) -> (n: usize)
    ensures
        n == lru_slots(*c).len(),
{
    c.inner.len()
}

/// `LruCache::get_mut`: looks `key` up. A hit moves the entry to the front and
/// hands out a copy of its value; a miss changes nothing.
#[verifier::external_body]
pub(crate) fn lru_get_mut(c: &mut LruSlots, key: &str) -> (r: Option<(u128, String)>)
    ensures
        lru_limit(*final(c)) == lru_limit(*old(c)),
        match r {
            Some(v) => exists|i: int|
                0 <= i < lru_slots(*old(c)).len()
                && (#[trigger] lru_slots(*old(c))[i]).0 == key@
                && lru_slots(*old(c))[i].1 == (v.0, v.1@)
                && lru_slots(*final(c)) == moved_to_front(lru_slots(*old(c)), i),
            None => lacks_key(lru_slots(*old(c)), key@)
                && lru_slots(*final(c)) == lru_slots(*old(c)),
        },
{
    c.inner.get_mut(key).cloned()
}

/// `LruCache::pop`: removes the entry for `key`, if there is one, and hands
/// out its value; the order of the others stays.
#[verifier::external_body]
pub(crate) fn lru_pop(c: &mut LruSlots, key: &str) -> (r: Option<(u128, String)>)
    ensures
        lru_limit(*final(c)) == lru_limit(*old(c)),
        match r {
            Some(v) => exists|i: int|
                0 <= i < lru_slots(*old(c)).len()
                && (#[trigger] lru_slots(*old(c))[i]).0 == key@
                && lru_slots(*old(c))[i].1 == (v.0, v.1@)
                && lru_slots(*final(c)) == lru_slots(*old(c)).remove(i),
            None => lacks_key(lru_slots(*old(c)), key@)
                && lru_slots(*final(c)) == lru_slots(*old(c)),
        },
{
    c.inner.pop(key)
}

/// `LruCache::put`: stores `(stamp, body)` under `key` at the front. An entry
/// that already has the key is replaced and its old value handed out. A new
/// key in a full cache first drops the entry at the back; nothing is handed
/// out then.
#[verifier::external_body]
pub(crate) fn lru_put(c: &mut LruSlots, key: String, stamp: u128, body: String) -> (r: Option<(u128, String)>)
    ensures
        lru_limit(*final(c)) == lru_limit(*old(c)),
        match r {
            Some(v) => exists|i: int|
                0 <= i < lru_slots(*old(c)).len()
                && (#[trigger] lru_slots(*old(c))[i]).0 == key@
                && lru_slots(*old(c))[i].1 == (v.0, v.1@)
                && lru_slots(*final(c)) == seq![(key@, (stamp, body@))] + lru_slots(*old(c)).remove(i),
            None => lacks_key(lru_slots(*old(c)), key@)
                && lru_slots(*final(c)) == seq![(key@, (stamp, body@))] + (
                    if lru_slots(*old(c)).len() == lru_limit(*old(c)) {
                        lru_slots(*old(c)).drop_last()
                    } else {
                        lru_slots(*old(c))
                    }),
        },
{
    c.inner.put(key, (stamp, body))
}

} // verus!
