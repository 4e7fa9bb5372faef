//! What holds of every store: hits after a write, expiry, and eviction.

use vstd::prelude::*;
use crate::cache::{age, StoreModel};

verus! {

/// A write puts its entry first, stamped with the time of the write, and the
/// key is then held.
pub proof fn law_put_is_most_recent(m: StoreModel, key: Seq<char>, body: Seq<char>, now: u128)
    requires
        m.wf(),
    ensures
        m.after_put(key, body, now).wf(),
        m.after_put(key, body, now).slots[0] == (key, (now, body)),
        m.after_put(key, body, now).holds(key),
        m.after_put(key, body, now).position(key) == 0,
{
    let after = m.after_put(key, body, now);
    m.lemma_after_put_wf(key, body, now);
    assert(after.slots[0] == (key, (now, body)));
    after.lemma_position(key);
}

/// A lookup that follows a write of the same key, no later than the time to
/// live after it, yields the written body and leaves the store as it was.
pub proof fn law_put_then_get_hits(m: StoreModel, key: Seq<char>, body: Seq<char>, written: u128, read: u128)
    requires
        m.wf(),
        age(read, written) <= m.ttl,
    ensures
        m.after_put(key, body, written).lookup(key, read) == Some(body),
        m.after_put(key, body, written).after_get(key, read) == m.after_put(key, body, written),
{
    let after = m.after_put(key, body, written);
    law_put_is_most_recent(m, key, body, written);
    assert(after.slots.remove(0) == after.slots.subrange(1, after.slots.len() as int));
    assert(seq![after.slots[0]] + after.slots.remove(0) =~= after.slots);
}

/// Stored entries are never altered: whatever a lookup leaves in the store
/// was there before, with the same stamp and body, and so was whatever a
/// write leaves behind the entry it wrote.
pub proof fn law_entries_are_never_altered(m: StoreModel, key: Seq<char>, body: Seq<char>, now: u128)
    requires
        m.wf(),
    ensures
        forall|j: int|
            0 <= j < m.after_get(key, now).slots.len() ==> m.slots.contains(#[trigger] m.after_get(key, now).slots[j]),
        forall|j: int|
            1 <= j < m.after_put(key, body, now).slots.len() ==> m.slots.contains(
                #[trigger] m.after_put(key, body, now).slots[j],
            ),
{
    let got = m.after_get(key, now);
    let put = m.after_put(key, body, now);
    if m.holds(key) {
        m.lemma_position(key);
    }
    let p = m.position(key);
    assert forall|j: int| 0 <= j < got.slots.len() implies m.slots.contains(#[trigger] got.slots[j]) by {
        if !m.holds(key) {
            assert(got.slots[j] == m.slots[j]);
        } else if m.fresh_at(p, now) {
            let src = if j == 0 { p } else if j - 1 < p { j - 1 } else { j };
            assert(got.slots[j] == m.slots[src]);
        } else {
            let src = if j < p { j } else { j + 1 };
            assert(got.slots[j] == m.slots[src]);
        }
    }
    assert forall|j: int| 1 <= j < put.slots.len() implies m.slots.contains(#[trigger] put.slots[j]) by {
        if m.holds(key) {
            let src = if j - 1 < p { j - 1 } else { j };
            assert(put.slots[j] == m.slots[src]);
        } else {
            assert(put.slots[j] == m.slots[j - 1]);
        }
    }
}

/// The last write wins: after two writes of one key the store holds one
/// entry for it, with the second body and stamp, and serves that.
pub proof fn law_last_write_wins(
    m: StoreModel,
    key: Seq<char>,
    first: Seq<char>,
    first_at: u128,
    second: Seq<char>,
    second_at: u128,
    read: u128,
)
    requires
        m.wf(),
        age(read, second_at) <= m.ttl,
    ensures
        m.after_put(key, first, first_at).after_put(key, second, second_at).lookup(key, read) == Some(second),
        m.after_put(key, first, first_at).after_put(key, second, second_at).slots == seq![
            (key, (second_at, second)),
        ] + m.after_put(key, first, first_at).slots.remove(0),
        m.after_put(key, first, first_at).after_put(key, second, second_at).slots.len() == m.after_put(
            key,
            first,
            first_at,
        ).slots.len(),
{
    let once = m.after_put(key, first, first_at);
    law_put_is_most_recent(m, key, first, first_at);
    law_put_then_get_hits(once, key, second, second_at, read);
}

/// A hit can be repeated: as long as the entry is fresh, looking the key up
/// again yields the same body.
pub proof fn law_hit_repeats(m: StoreModel, key: Seq<char>, first: u128, second: u128)
    requires
        m.wf(),
        m.lookup(key, first) is Some,
        m.fresh_at(m.position(key), second),
    ensures
        m.after_get(key, first).lookup(key, second) == m.lookup(key, first),
{
    m.lemma_position(key);
    m.lemma_after_get_wf(key, first);
    let after = m.after_get(key, first);
    assert(after.slots[0] == m.slots[m.position(key)]);
    after.lemma_position(key);
}

/// An entry older than the time to live is treated as absent: the lookup
/// yields nothing and removes it, and only it.
pub proof fn law_stale_is_absent(m: StoreModel, key: Seq<char>, now: u128)
    requires
        m.wf(),
        m.holds(key),
        age(now, m.slots[m.position(key)].1.0) > m.ttl,
    ensures
        m.lookup(key, now) is None,
        m.after_get(key, now).slots == m.slots.remove(m.position(key)),
        !m.after_get(key, now).holds(key),
        forall|t: u128| m.after_get(key, now).lookup(key, t) is None,
{
    m.lemma_position(key);
    m.lemma_remove_wf(m.position(key));
}

/// After an entry has expired, the next write of its key stores the new body
/// with the new stamp, and a lookup within the time to live serves it.
pub proof fn law_rewrite_after_expiry(m: StoreModel, key: Seq<char>, body: Seq<char>, expired: u128, written: u128, read: u128)
    requires
        m.wf(),
        m.holds(key),
        age(expired, m.slots[m.position(key)].1.0) > m.ttl,
        age(read, written) <= m.ttl,
    ensures
        m.after_get(key, expired).after_put(key, body, written).slots[0] == (key, (written, body)),
        m.after_get(key, expired).after_put(key, body, written).lookup(key, read) == Some(body),
{
    m.lemma_after_get_wf(key, expired);
    let gone = m.after_get(key, expired);
    law_put_is_most_recent(gone, key, body, written);
    law_put_then_get_hits(gone, key, body, written, read);
}

/// Writing a new key into a full store evicts exactly the least recently
/// used entry: its key is no longer held, every lookup of it misses, and all
/// other entries stay, in their order, behind the new one.
pub proof fn law_full_put_evicts_lru(m: StoreModel, key: Seq<char>, body: Seq<char>, now: u128)
    requires
        m.wf(),
        m.slots.len() == m.capacity,
        !m.holds(key),
    ensures
        m.after_put(key, body, now).slots == seq![(key, (now, body))] + m.slots.drop_last(),
        m.after_put(key, body, now).slots.len() == m.capacity,
        !m.after_put(key, body, now).holds(m.slots.last().0),
        forall|t: u128| m.after_put(key, body, now).lookup(m.slots.last().0, t) is None,
        forall|k: Seq<char>| m.holds(k) && k != m.slots.last().0 ==> m.after_put(key, body, now).holds(k),
{
    let after = m.after_put(key, body, now);
    let last = m.slots.len() - 1;
    let evicted = m.slots.last().0;
    assert(m.slots[last].0 == evicted);
    assert(evicted != key);
    assert forall|i: int| 0 <= i < after.slots.len() implies (#[trigger] after.slots[i]).0 != evicted by {
        if i > 0 {
            assert(after.slots[i] == m.slots[i - 1]);
            assert(m.slots[i - 1].0 != m.slots[last].0);
        }
    }
    assert forall|k: Seq<char>| m.holds(k) && k != evicted implies after.holds(k) by {
        let i = m.position(k);
        assert(after.slots[i + 1] == m.slots[i]);
    }
}

/// Writing a new key into a store that is not full evicts nothing.
pub proof fn law_put_with_room_keeps_all(m: StoreModel, key: Seq<char>, body: Seq<char>, now: u128)
    requires
        m.wf(),
        m.slots.len() < m.capacity,
        !m.holds(key),
    ensures
        m.after_put(key, body, now).slots == seq![(key, (now, body))] + m.slots,
        forall|k: Seq<char>| m.holds(k) ==> m.after_put(key, body, now).holds(k),
{
    let after = m.after_put(key, body, now);
    assert forall|k: Seq<char>| m.holds(k) implies after.holds(k) by {
        let i = m.position(k);
        assert(after.slots[i + 1] == m.slots[i]);
    }
}

/// The store after the keys of `keys` were written one after another, each
/// with the body and at the time that stand at its place.
pub open spec fn after_puts(m: StoreModel, keys: Seq<Seq<char>>, bodies: Seq<Seq<char>>, times: Seq<u128>) -> StoreModel
    decreases keys.len(),
{
    if keys.len() == 0 {
        m
    } else {
        after_puts(m, keys.drop_last(), bodies.drop_last(), times.drop_last()).after_put(
            keys.last(),
            bodies.last(),
            times.last(),
        )
    }
}

/// No key occurs twice in `keys`.
pub open spec fn distinct(keys: Seq<Seq<char>>) -> bool {
    forall|i: int, j: int| 0 <= i < j < keys.len() ==> keys[i] != keys[j]
}

/// Writing at most `capacity` distinct keys into an empty store keeps them
/// all, the latest first.
pub proof fn law_fill_keeps_all(m: StoreModel, keys: Seq<Seq<char>>, bodies: Seq<Seq<char>>, times: Seq<u128>)
    requires
        m.wf(),
        m.slots.len() == 0,
        keys.len() <= m.capacity,
        bodies.len() == keys.len(),
        times.len() == keys.len(),
        distinct(keys),
    ensures
        after_puts(m, keys, bodies, times).wf(),
        after_puts(m, keys, bodies, times).capacity == m.capacity,
        after_puts(m, keys, bodies, times).slots.len() == keys.len(),
        forall|i: int| 0 <= i < keys.len() ==> (#[trigger] after_puts(m, keys, bodies, times).slots[i])
            == (keys[keys.len() - 1 - i], (times[keys.len() - 1 - i], bodies[keys.len() - 1 - i])),
    decreases keys.len(),
{
    if keys.len() > 0 {
        let n = keys.len() as int;
        let before = after_puts(m, keys.drop_last(), bodies.drop_last(), times.drop_last());
        law_fill_keeps_all(m, keys.drop_last(), bodies.drop_last(), times.drop_last());
        assert forall|i: int| 0 <= i < before.slots.len() implies (#[trigger] before.slots[i]).0 != keys.last() by {
            assert(before.slots[i].0 == keys.drop_last()[n - 2 - i]);
            assert(keys[n - 2 - i] != keys[n - 1]);
        }
        assert(!before.holds(keys.last()));
        before.lemma_after_put_wf(keys.last(), bodies.last(), times.last());
        let after = after_puts(m, keys, bodies, times);
        assert forall|i: int| 0 <= i < keys.len() implies (#[trigger] after.slots[i])
            == (keys[n - 1 - i], (times[n - 1 - i], bodies[n - 1 - i])) by {
            if i > 0 {
                assert(after.slots[i] == before.slots[i - 1]);
                assert(keys.drop_last()[n - 1 - i] == keys[n - 1 - i]);
                assert(times.drop_last()[n - 1 - i] == times[n - 1 - i]);
                assert(bodies.drop_last()[n - 1 - i] == bodies[n - 1 - i]);
            }
        }
    }
}

/// Writing `capacity + 1` distinct keys into an empty store evicts exactly
/// the one written first: a lookup of it misses at any time, and each of the
/// others is still held.
pub proof fn law_overfill_evicts_first(m: StoreModel, keys: Seq<Seq<char>>, bodies: Seq<Seq<char>>, times: Seq<u128>)
    requires
        m.wf(),
        m.slots.len() == 0,
        keys.len() == m.capacity + 1,
        bodies.len() == keys.len(),
        times.len() == keys.len(),
        distinct(keys),
    ensures
        after_puts(m, keys, bodies, times).wf(),
        after_puts(m, keys, bodies, times).slots.len() == m.capacity,
        !after_puts(m, keys, bodies, times).holds(keys[0]),
        forall|t: u128| after_puts(m, keys, bodies, times).lookup(keys[0], t) is None,
        forall|i: int| 1 <= i < keys.len() ==> after_puts(m, keys, bodies, times).holds(#[trigger] keys[i]),
{
    let n = keys.len() as int;
    let before = after_puts(m, keys.drop_last(), bodies.drop_last(), times.drop_last());
    law_fill_keeps_all(m, keys.drop_last(), bodies.drop_last(), times.drop_last());
    assert forall|i: int| 0 <= i < before.slots.len() implies (#[trigger] before.slots[i]).0 != keys.last() by {
        assert(before.slots[i].0 == keys.drop_last()[n - 2 - i]);
        assert(keys[n - 2 - i] != keys[n - 1]);
    }
    assert(!before.holds(keys.last()));
    before.lemma_after_put_wf(keys.last(), bodies.last(), times.last());
    law_full_put_evicts_lru(before, keys.last(), bodies.last(), times.last());
    let after = after_puts(m, keys, bodies, times);
    assert(before.slots.last() == before.slots[n - 2]);
    assert(before.slots.last().0 == keys.drop_last()[0]);
    assert forall|i: int| 1 <= i < keys.len() implies after.holds(#[trigger] keys[i]) by {
        if i == n - 1 {
            assert(after.slots[0].0 == keys[i]);
        } else {
            assert(before.slots[n - 2 - i].0 == keys.drop_last()[i]);
            assert(before.holds(keys[i]));
            assert(keys[i] != keys[0]);
        }
    }
}

} // verus!
