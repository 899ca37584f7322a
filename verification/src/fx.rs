//! Hash collections of `rustc_hash`, with the contracts the rest of the crate relies on.
//!
//! `FxHashSet` and `FxHashMap` are the standard collections with the deterministic
//! `FxBuildHasher`. The contracts below are stated over the collections' views and are
//! not proved here: they say of integer keys what the standard library documents.

use rustc_hash::{FxBuildHasher, FxHashMap, FxHashSet};
use vstd::prelude::*;

verus! {

/// A map from integer codes to values, hashed by `rustc_hash`.
pub type CodeMap<V> = FxHashMap<u32, V>;

/// A set of unit tags, hashed by `rustc_hash`.
pub type TagSet = FxHashSet<u64>;

/// The hasher builder of `rustc_hash`, a unit struct that carries no state.
#[verifier::external_type_specification]
#[verifier::external_body]
pub struct ExFxBuildHasher(FxBuildHasher);

/// `HashSet::insert` on a set of tags: afterwards the set holds `tag` and everything
/// it held before; the result tells whether `tag` was new.
#[verifier::external_body]
pub(crate) fn set_insert(set: &mut TagSet, tag: u64) -> (fresh: bool)
    ensures
        final(set)@ == old(set)@.insert(tag),
        fresh == !old(set)@.contains(tag),
{
    set.insert(tag)
}

/// `HashSet::drain`, collected: the set is left empty and the result holds each tag
/// that was in it exactly once, in an order that is not specified.
#[verifier::external_body]
pub(crate) fn set_drain(set: &mut TagSet) -> (tags: Vec<u64>)
    ensures
        final(set)@ == Set::<u64>::empty(),
        tags@.no_duplicates(),
        tags@.to_set() == old(set)@,
{
    set.drain().collect()
}

/// `HashMap::with_capacity_and_hasher`: an empty map; the capacity is only a hint.
#[verifier::external_body]
pub(crate) fn map_with_capacity<V>(capacity: usize) -> (empty: CodeMap<V>)
    ensures
        empty@.dom() == Set::<u32>::empty(),
{
    FxHashMap::with_capacity_and_hasher(capacity, FxBuildHasher)
}

/// `HashMap::insert` on a map keyed by integer codes: the entry for `key` becomes
/// `value`, every other entry stays, and the value that was replaced is returned.
#[verifier::external_body]
pub(crate) fn map_insert<V>(map: &mut CodeMap<V>, key: u32, value: V) -> (replaced: Option<V>)
    ensures
        final(map)@ == old(map)@.insert(key, value),
        replaced == if old(map)@.contains_key(key) { Some(old(map)@[key]) } else { None },
{
    map.insert(key, value)
}

/// `HashMap::get` on a map keyed by integer codes.
#[verifier::external_body]
pub(crate) fn map_get<'a, V>(map: &'a CodeMap<V>, key: u32) -> (found: Option<&'a V>)
    ensures
        found == if map@.contains_key(key) { Some(&map@[key]) } else { None },
{
    map.get(&key)
}

} // verus!
