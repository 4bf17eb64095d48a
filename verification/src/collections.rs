//! The hash collections that back the multimap, and what is taken on trust
//! about them.
//!
//! The maps and sets are `bevy::platform::collections::{HashMap, HashSet}` with
//! the fixed-seed hasher. Verus cannot look inside them, so their contents are
//! given names here, and every method the multimap calls goes through a small
//! function whose contract is believed rather than proved. Keys and items are
//! `u64` throughout, so hashing and equality are those of the integers.

use bevy::platform::collections::HashMap;
use bevy::platform::collections::HashSet;
use bevy::platform::hash::FixedHasher;
use vstd::prelude::*;

verus! {

/// `bevy::platform::hash::FixedHasher`, the fixed-seed hasher of the maps and
/// sets below. It is only named, never used directly.
#[verifier::external_type_specification]
#[verifier::external_body]
pub struct ExFixedHasher(FixedHasher);

/// `bevy::platform::collections::HashMap`. Nothing is known of a map but what
/// [`forward_entries`] and [`reverse_entries`] name.
#[verifier::external_type_specification]
#[verifier::external_body]
#[verifier::reject_recursive_types(K)]
#[verifier::reject_recursive_types(V)]
#[verifier::reject_recursive_types(S)]
pub struct ExHashMap<K, V, S>(HashMap<K, V, S>);

/// `bevy::platform::collections::HashSet`. Nothing is known of a set but what
/// [`set_items`] names.
#[verifier::external_type_specification]
#[verifier::external_body]
#[verifier::reject_recursive_types(T)]
#[verifier::reject_recursive_types(S)]
pub struct ExHashSet<T, S>(HashSet<T, S>);

/// The items held by a hash set.
pub uninterp spec fn set_items(s: HashSet<u64, FixedHasher>) -> Set<u64>;

/// The entries of a key-to-set map: each key present, with the items of its set.
pub uninterp spec fn forward_entries(
    m: HashMap<u64, HashSet<u64, FixedHasher>, FixedHasher>,
) -> Map<u64, Set<u64>>;

/// The entries of an item-to-key map.
pub uninterp spec fn reverse_entries(m: HashMap<u64, u64, FixedHasher>) -> Map<u64, u64>;

/// `HashSet::default`: a set without items.
#[verifier::external_body]
pub(crate) fn set_default() -> (s: HashSet<u64>)
    ensures
        set_items(s) == Set::<u64>::empty(),
{
    HashSet::default()
}

/// `HashSet::len`: the number of items.
#[verifier::external_body]
pub(crate) fn set_len(s: &HashSet<u64>) -> (n: usize)
    ensures
        n == set_items(*s).len(),
{
    s.len()
}

/// `HashSet::insert`: the item is in the set afterwards and nothing else
/// changes; the result tells whether it was new.
#[verifier::external_body]
pub(crate) fn set_insert(s: &mut HashSet<u64>, v: u64) -> (fresh: bool)
    ensures
        set_items(*final(s)) == set_items(*old(s)).insert(v),
        fresh == !set_items(*old(s)).contains(v),
{
    s.insert(v)
}

/// `HashSet::remove`: the item is gone afterwards and nothing else changes;
/// the result tells whether it was there.
#[verifier::external_body]
pub(crate) fn set_remove(s: &mut HashSet<u64>, v: &u64) -> (present: bool)
    ensures
        set_items(*final(s)) == set_items(*old(s)).remove(*v),
        present == set_items(*old(s)).contains(*v),
{
    s.remove(v)
}

/// `HashSet::iter`, collected: every item exactly once, in the order the
/// table happens to hold them.
#[verifier::external_body]
pub(crate) fn set_to_vec(s: &HashSet<u64>) -> (items: Vec<u64>)
    ensures
        items@.no_duplicates(),
        items@.to_set() == set_items(*s),
{
    s.iter().copied().collect()
}

/// `HashMap::default` for the key-to-set map: no entries.
#[verifier::external_body]
pub(crate) fn forward_default() -> (m: HashMap<u64, HashSet<u64>>)
    ensures
        forward_entries(m).dom() == Set::<u64>::empty(),
{
    HashMap::default()
}

/// `HashMap::contains_key` on the key-to-set map.
#[verifier::external_body]
pub(crate) fn forward_contains_key(m: &HashMap<u64, HashSet<u64>>, k: &u64) -> (present: bool)
    ensures
        present == forward_entries(*m).contains_key(*k),
{
    m.contains_key(k)
}

/// `HashMap::get` on the key-to-set map: the set stored under the key, if
/// the key is present.
#[verifier::external_body]
pub(crate) fn forward_get<'a>(m: &'a HashMap<u64, HashSet<u64>>, k: &u64) -> (found: Option<
    &'a HashSet<u64>,
>)
    ensures
        found is Some <==> forward_entries(*m).contains_key(*k),
        found matches Some(s) ==> set_items(*s) == forward_entries(*m)[*k],
{
    m.get(k)
}

/// `HashMap::get_mut` on the key-to-set map: exclusive access to the set
/// stored under the key. Whatever the caller leaves in that set is what the
/// map holds under the key afterwards; no other entry changes.
#[verifier::external_body]
pub(crate) fn forward_get_mut<'a>(m: &'a mut HashMap<u64, HashSet<u64>>, k: &u64) -> (found:
    Option<&'a mut HashSet<u64>>)
    ensures
        found is Some <==> forward_entries(*old(m)).contains_key(*k),
        found matches Some(s) ==> {
            &&& set_items(*s) == forward_entries(*old(m))[*k]
            &&& forward_entries(*final(m)) == forward_entries(*old(m)).insert(
                *k,
                set_items(*final(s)),
            )
        },
        found is None ==> forward_entries(*final(m)) == forward_entries(*old(m)),
{
    m.get_mut(k)
}

/// `HashMap::insert` on the key-to-set map: the key holds the given set
/// afterwards; the set it held before, if any, is handed back.
#[verifier::external_body]
pub(crate) fn forward_insert(m: &mut HashMap<u64, HashSet<u64>>, k: u64, s: HashSet<u64>) -> (prior:
    Option<HashSet<u64>>)
    ensures
        forward_entries(*final(m)) == forward_entries(*old(m)).insert(k, set_items(s)),
        prior is Some <==> forward_entries(*old(m)).contains_key(k),
        prior matches Some(p) ==> set_items(p) == forward_entries(*old(m))[k],
{
    m.insert(k, s)
}

/// `HashMap::remove` on the key-to-set map: the key is absent afterwards;
/// the set it held, if any, is handed back.
#[verifier::external_body]
pub(crate) fn forward_remove(m: &mut HashMap<u64, HashSet<u64>>, k: &u64) -> (prior: Option<
    HashSet<u64>,
>)
    ensures
        forward_entries(*final(m)) == forward_entries(*old(m)).remove(*k),
        prior is Some <==> forward_entries(*old(m)).contains_key(*k),
        prior matches Some(p) ==> set_items(p) == forward_entries(*old(m))[*k],
{
    m.remove(k)
}

/// `HashMap::default` for the item-to-key map: no entries.
#[verifier::external_body]
pub(crate) fn reverse_default() -> (m: HashMap<u64, u64>)
    ensures
        reverse_entries(m).dom() == Set::<u64>::empty(),
{
    HashMap::default()
}

/// `HashMap::insert` on the item-to-key map: the item maps to the given key
/// afterwards; the key it mapped to before, if any, is returned.
#[verifier::external_body]
pub(crate) fn reverse_insert(m: &mut HashMap<u64, u64>, v: u64, k: u64) -> (prior: Option<u64>)
    ensures
        reverse_entries(*final(m)) == reverse_entries(*old(m)).insert(v, k),
        prior == if reverse_entries(*old(m)).contains_key(v) {
            Some(reverse_entries(*old(m))[v])
        } else {
            None
        },
{
    m.insert(v, k)
}

/// `HashMap::remove` on the item-to-key map: the item is absent afterwards;
/// the key it mapped to, if any, is returned.
#[verifier::external_body]
pub(crate) fn reverse_remove(m: &mut HashMap<u64, u64>, v: &u64) -> (prior: Option<u64>)
    ensures
        reverse_entries(*final(m)) == reverse_entries(*old(m)).remove(*v),
        prior == if reverse_entries(*old(m)).contains_key(*v) {
            Some(reverse_entries(*old(m))[*v])
        } else {
            None
        },
{
    m.remove(v)
}

} // verus!
