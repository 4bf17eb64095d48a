//! A map from keys to sets of values in which a value belongs to at most one
//! key at a time.
//!
//! Two hash maps are kept in step: `map` takes a key to the set of its values,
//! `rev_map` takes a value to its key. The mathematical model of the whole
//! structure is the second relation alone, a `Map` from value to key; the first
//! is its inverse image, and [`agree`] says so.

use crate::collections::{
    forward_contains_key, forward_default, forward_entries, forward_get, forward_get_mut,
    forward_insert, forward_remove, reverse_default, reverse_entries, reverse_insert,
    reverse_remove, set_default, set_insert, set_items, set_len, set_remove, set_to_vec,
};
use bevy::platform::collections::HashMap;
use bevy::platform::collections::HashSet;
use vstd::prelude::*;

verus! {

/// The key that value `v` belongs to in the value-to-key relation `rev`.
pub open spec fn key_of(rev: Map<u64, u64>, v: u64) -> Option<u64> {
    if rev.contains_key(v) {
        Some(rev[v])
    } else {
        None
    }
}

/// The values that belong to key `k` in the value-to-key relation `rev`.
pub open spec fn values_under(rev: Map<u64, u64>, k: u64) -> Set<u64> {
    Set::new(|v: u64| rev.contains_key(v) && rev[v] == k)
}

/// The key-to-values map that `rev` determines: a key is present exactly when
/// some value belongs to it, and it holds all the values that do.
pub open spec fn forward_of(rev: Map<u64, u64>) -> Map<u64, Set<u64>> {
    Map::new(
        |k: u64| exists|v: u64| #[trigger] rev.contains_key(v) && rev[v] == k,
        |k: u64| values_under(rev, k),
    )
}

/// Map where a key can have multiple values, but a value can only exist for
/// one key at a time. Re-inserting a value is a no-op if it already exists
/// under the same key, otherwise the value is removed from under its present
/// key and added under the new key.
pub struct UniqueMultiMap {
    map: HashMap<u64, HashSet<u64>>,
    rev_map: HashMap<u64, u64>,
}

impl View for UniqueMultiMap {
    type V = Map<u64, u64>;

    /// The value-to-key relation.
    closed spec fn view(&self) -> Map<u64, u64> {
        reverse_entries(self.rev_map)
    }
}

/// A value-to-key relation and a key-to-values map agree: every value sits
/// in the set of the key it maps to, every value in a key's set maps to that
/// key, and no key holds an empty set. There are finitely many values.
pub open spec fn agree(rev: Map<u64, u64>, fwd: Map<u64, Set<u64>>) -> bool {
    &&& rev.dom().finite()
    &&& forall|v: u64| #[trigger]
        rev.contains_key(v) ==> fwd.contains_key(rev[v]) && fwd[rev[v]].contains(v)
    &&& forall|k: u64, v: u64|
        fwd.contains_key(k) && #[trigger] fwd[k].contains(v) ==> rev.contains_key(v) && rev[v]
            == k
    &&& forall|k: u64| #[trigger] fwd.contains_key(k) ==> fwd[k].finite() && fwd[k].len() > 0
}

/// The set stored under `k`, or the empty set where `k` is absent.
spec fn set_at(fwd: Map<u64, Set<u64>>, k: u64) -> Set<u64> {
    if fwd.contains_key(k) {
        fwd[k]
    } else {
        Set::empty()
    }
}

/// `fwd` with `v` taken out of `k`'s set, and without `k` where its set held
/// one value only.
spec fn purged(fwd: Map<u64, Set<u64>>, k: u64, v: u64) -> Map<u64, Set<u64>> {
    if fwd[k].len() == 1 {
        fwd.remove(k)
    } else {
        fwd.insert(k, fwd[k].remove(v))
    }
}

/// `fwd` with `v` put into `k`'s set.
spec fn added(fwd: Map<u64, Set<u64>>, k: u64, v: u64) -> Map<u64, Set<u64>> {
    fwd.insert(k, set_at(fwd, k).insert(v))
}

/// Purging a value from the set of its key keeps the two sides in agreement
/// once the value is dropped from the value-to-key side as well.
proof fn lemma_purged_agrees(rev: Map<u64, u64>, fwd: Map<u64, Set<u64>>, v: u64)
    requires
        agree(rev, fwd),
        rev.contains_key(v),
    ensures
        agree(rev.remove(v), purged(fwd, rev[v], v)),
{
    let k = rev[v];
    assert(fwd[k].contains(v));
    assert(fwd[k].remove(v).len() == fwd[k].len() - 1);
    assert forall|u: u64| u != v && fwd[k].contains(u) implies fwd[k].len() != 1 by {
        assert(fwd[k].remove(v).contains(u));
    }
}

/// Adding a value that has no key yet to a key's set keeps the two sides in
/// agreement once the value-to-key side maps it to that key.
proof fn lemma_added_agrees(rev: Map<u64, u64>, fwd: Map<u64, Set<u64>>, k: u64, v: u64)
    requires
        agree(rev, fwd),
        !rev.contains_key(v),
    ensures
        agree(rev.insert(v, k), added(fwd, k, v)),
{
    assert(set_at(fwd, k).finite());
}

/// The set stored under `k`, for writing.
///
/// Inserts an empty set under `k` first where the key is absent. What the
/// caller leaves in the set is what `map` holds under `k` afterwards.
fn get_mut_or_insert_default<'a>(map: &'a mut HashMap<u64, HashSet<u64>>, k: &u64) -> (set:
    &'a mut HashSet<u64>)
    ensures
        set_items(*set) == set_at(forward_entries(*old(map)), *k),
        forward_entries(*final(map)) == forward_entries(*old(map)).insert(
            *k,
            set_items(*final(set)),
        ),
{
    if !forward_contains_key(map, k) {
        forward_insert(map, *k, set_default());
    }
    let ghost mid = forward_entries(*map);
    let found = forward_get_mut(map, k);
    assert(forall|s: Set<u64>| #[trigger] mid.insert(*k, s) =~= forward_entries(*old(map)).insert(*k, s));
    found.unwrap()
}

impl UniqueMultiMap {
    /// The key-to-values map as stored.
    pub closed spec fn forward(&self) -> Map<u64, Set<u64>> {
        forward_entries(self.map)
    }

    /// The two maps [`agree`].
    pub open spec fn wf(&self) -> bool {
        agree(self@, self.forward())
    }

    /// An empty multimap.
    pub fn new() -> (m: Self)
        ensures
            m.wf(),
            m@ == Map::<u64, u64>::empty(),
    {
        let m = UniqueMultiMap { map: forward_default(), rev_map: reverse_default() };
        assert(m@ =~= Map::<u64, u64>::empty());
        m
    }

    /// Returns all values currently under `k`, each once; none if `k` is absent.
    pub fn get(&self, k: &u64) -> (vs: Vec<u64>)
        requires
            self.wf(),
        ensures
            vs@.no_duplicates(),
            vs@.to_set() == values_under(self@, *k),
    {
        match forward_get(&self.map, k) {
            Some(set) => {
                assert(self.forward()[*k] =~= values_under(self@, *k));
                set_to_vec(set)
            },
            None => {
                assert(values_under(self@, *k) =~= Set::<u64>::empty());
                Vec::new()
            },
        }
    }

    /// Puts `v` under `new_k` and returns the key it was under before.
    ///
    /// Where `v` was under another key, it leaves that key's set, and the key
    /// leaves the map if nothing else was under it.
    pub fn insert(&mut self, new_k: &u64, v: u64) -> (old_k: Option<u64>)
        requires
            old(self).wf(),
        ensures
            final(self).wf(),
            final(self)@ == old(self)@.insert(v, *new_k),
            old_k == key_of(old(self)@, v),
    {
        let maybe_old_k = reverse_insert(&mut self.rev_map, v, *new_k);
        if let Some(old_k) = maybe_old_k {
            // insert value into same key: no-op
            if old_k == *new_k {
                assert(self@ =~= old(self)@);
                return maybe_old_k;
            }
            // remove old value; its key must exist according to rev_map
            self.purge_from_forward(&old_k, &v);
        }
        // insert new value
        let ghost rest = old(self)@.remove(v);
        proof {
            if maybe_old_k is Some {
                lemma_purged_agrees(old(self)@, old(self).forward(), v);
            } else {
                assert(rest =~= old(self)@);
            }
            lemma_added_agrees(rest, self.forward(), *new_k, v);
            assert(rest.insert(v, *new_k) =~= self@);
        }
        let set = get_mut_or_insert_default(&mut self.map, new_k);
        set_insert(set, v);
        maybe_old_k
    }

    /// Takes `v` out of the map and returns the key it was under.
    ///
    /// The key leaves the map too if nothing else was under it.
    pub fn remove(&mut self, v: &u64) -> (old_k: Option<u64>)
        requires
            old(self).wf(),
        ensures
            final(self).wf(),
            final(self)@ == old(self)@.remove(*v),
            old_k == key_of(old(self)@, *v),
    {
        let maybe_old_k = reverse_remove(&mut self.rev_map, v);
        if let Some(old_k) = maybe_old_k {
            proof {
                lemma_purged_agrees(old(self)@, old(self).forward(), *v);
            }
            self.purge_from_forward(&old_k, v);
        } else {
            assert(self@ =~= old(self)@);
        }
        maybe_old_k
    }

    /// Removes `v` from `k`'s set, removing the set completely if it would be
    /// empty.
    fn purge_from_forward(&mut self, k: &u64, v: &u64)
        requires
            old(self).forward().contains_key(*k),
        ensures
            final(self)@ == old(self)@,
            final(self).forward() == purged(old(self).forward(), *k, *v),
    {
        let found = forward_get_mut(&mut self.map, k);
        let old_set = found.unwrap();
        if set_len(old_set) == 1 {
            forward_remove(&mut self.map, k);
            assert(self.forward() =~= old(self).forward().remove(*k));
        } else {
            set_remove(old_set, v);
        }
    }
}

impl Default for UniqueMultiMap {
    fn default() -> (m: Self)
        ensures
            m.wf(),
            m@ == Map::<u64, u64>::empty(),
    {
        UniqueMultiMap::new()
    }
}

/// In a consistent multimap the stored key-to-values map is exactly the
/// inverse image of the value-to-key relation: no value is missing from its
/// key's set, none sits under a key it does not map to, and no key is kept
/// for an empty set.
pub proof fn lemma_forward_is_inverse(m: UniqueMultiMap)
    requires
        m.wf(),
    ensures
        m.forward() == forward_of(m@),
        forall|k: u64| #[trigger] m.forward().contains_key(k) ==> m.forward()[k] == values_under(m@, k),
        forall|k: u64| !m.forward().contains_key(k) ==> #[trigger] values_under(m@, k) == Set::<u64>::empty(),
{
    assert forall|k: u64| #[trigger] m.forward().contains_key(k) implies m.forward()[k]
        == values_under(m@, k) by {
        assert(m.forward()[k] =~= values_under(m@, k));
    }
    assert forall|k: u64| !m.forward().contains_key(k) implies #[trigger] values_under(m@, k)
        == Set::<u64>::empty() by {
        assert(values_under(m@, k) =~= Set::<u64>::empty());
    }
    assert forall|k: u64| m.forward().contains_key(k) <==> forward_of(m@).contains_key(k) by {
        if m.forward().contains_key(k) {
            let v = m.forward()[k].choose();
            assert(m.forward()[k].contains(v));
            assert(m@.contains_key(v) && m@[v] == k);
        }
    }
    assert(m.forward() =~= forward_of(m@));
}

/// Inserting the same pair twice in a row: the second insertion leaves both
/// maps as they were and reports `k` as the key the value was under.
///
/// `once` and `twice` are the multimap after the first and after the second
/// `insert(k, v)`.
pub proof fn lemma_reinsert_idempotent(
    start: UniqueMultiMap,
    once: UniqueMultiMap,
    twice: UniqueMultiMap,
    k: u64,
    v: u64,
)
    requires
        start.wf(),
        once.wf(),
        twice.wf(),
        once@ == start@.insert(v, k),
        twice@ == once@.insert(v, k),
    ensures
        twice@ == once@,
        twice.forward() == once.forward(),
        key_of(once@, v) == Some(k),
{
    assert(twice@ =~= once@);
    lemma_forward_is_inverse(once);
    lemma_forward_is_inverse(twice);
}

/// Inserting `v` under `k2` while it is under another key `k1`: `v` leaves the
/// values of `k1` and joins those of `k2`, no other key is touched, and where
/// `v` was the only value of `k1` that key is gone from the map.
///
/// `before` and `after` are the multimap before and after `insert(k2, v)`.
pub proof fn lemma_key_migration(
    before: UniqueMultiMap,
    after: UniqueMultiMap,
    k1: u64,
    k2: u64,
    v: u64,
)
    requires
        before.wf(),
        after.wf(),
        key_of(before@, v) == Some(k1),
        k1 != k2,
        after@ == before@.insert(v, k2),
    ensures
        values_under(after@, k1) == values_under(before@, k1).remove(v),
        values_under(after@, k2) == values_under(before@, k2).insert(v),
        forall|k: u64|
            k != k1 && k != k2 ==> #[trigger] values_under(after@, k) == values_under(before@, k),
        values_under(before@, k1) == set![v] ==> values_under(after@, k1) == Set::<u64>::empty()
            && !after.forward().contains_key(k1),
{
    assert(values_under(after@, k1) =~= values_under(before@, k1).remove(v));
    assert(values_under(after@, k2) =~= values_under(before@, k2).insert(v));
    assert forall|k: u64| k != k1 && k != k2 implies #[trigger] values_under(after@, k)
        == values_under(before@, k) by {
        assert(values_under(after@, k) =~= values_under(before@, k));
    }
    if values_under(before@, k1) == set![v] {
        assert(values_under(after@, k1) =~= Set::<u64>::empty());
        lemma_forward_is_inverse(after);
        if after.forward().contains_key(k1) {
            assert(after.forward()[k1].len() > 0);
        }
    }
}

} // verus!
