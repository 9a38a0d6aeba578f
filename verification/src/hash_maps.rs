//! The hash maps in which the catalogue of structures is kept.
//!
//! The maps are those of bevy. Nothing in them is proved here: each function
//! of this file states what the map's own function does, and the rest of the
//! library is proved from that.

use crate::structure_manifest::{RawStructureData, StructureEntry};
use vstd::prelude::*;

verus! {

/// A `bevy::utils::HashMap` from the number of a type of structure to what
/// is recorded of it.
#[verifier::external_body]
pub struct StructureMap {
    inner: bevy::utils::HashMap<u64, StructureEntry>,
}

/// What a `StructureMap` holds: each key with its entry.
pub uninterp spec fn structure_entries(map: StructureMap) -> Map<u64, StructureEntry>;

/// `HashMap::default`: a map that holds nothing.
#[verifier::external_body]
pub(crate) fn structure_map_new() -> (empty: StructureMap)
    ensures
        structure_entries(empty) == (Map::<u64, StructureEntry>::empty()),
{
    StructureMap { inner: bevy::utils::HashMap::default() }
}

/// `HashMap::insert`: the map holds `entry` under `key`, in place of what it
/// held there, and every other key as before.
#[verifier::external_body]
pub(crate) fn structure_map_insert(map: &mut StructureMap, key: u64, entry: StructureEntry)
    ensures
        structure_entries(*final(map)) == structure_entries(*old(map)).insert(key, entry),
{
    map.inner.insert(key, entry);
}

/// `HashMap::get`: the entry that the map holds under `key`, if it holds one.
#[verifier::external_body]
pub(crate) fn structure_map_get(map: &StructureMap, key: u64) -> (entry: Option<&StructureEntry>)
    ensures
        match entry {
            Some(entry) => structure_entries(*map).contains_key(key) && structure_entries(
                *map,
            )[key] == *entry,
            None => !structure_entries(*map).contains_key(key),
        },
{
    map.inner.get(&key)
}

/// `HashMap::len`: the number of keys.
#[verifier::external_body]
pub(crate) fn structure_map_len(map: &StructureMap) -> (count: usize)
    ensures
        count == structure_entries(*map).dom().len(),
{
    map.inner.len()
}

/// `HashMap::keys`: every key of the map once, in an order that is not told.
#[verifier::external_body]
pub(crate) fn structure_map_keys(map: &StructureMap) -> (keys: Vec<u64>)
    ensures
        keys@.no_duplicates(),
        forall|key: u64| keys@.contains(key) <==> structure_entries(*map).contains_key(key),
{
    map.inner.keys().copied().collect()
}

/// A `bevy::utils::HashMap` from the name of a type of structure to what a
/// file states of it.
#[verifier::external_body]
pub struct RawStructureMap {
    inner: bevy::utils::HashMap<String, RawStructureData>,
}

/// What a `RawStructureMap` holds: each name with what is stated of it.
pub uninterp spec fn raw_structure_entries(map: RawStructureMap) -> Map<
    Seq<char>,
    RawStructureData,
>;

/// `HashMap::default`: a map that holds nothing.
#[verifier::external_body]
pub(crate) fn raw_structure_map_new() -> (empty: RawStructureMap)
    ensures
        raw_structure_entries(empty) == (Map::<Seq<char>, RawStructureData>::empty()),
{
    RawStructureMap { inner: bevy::utils::HashMap::default() }
}

/// `HashMap::insert`: the map holds `data` under `name`, in place of what it
/// held there, and every other name as before.
#[verifier::external_body]
pub(crate) fn raw_structure_map_insert(
    map: &mut RawStructureMap,
    name: String,
    data: RawStructureData,
)
    ensures
        raw_structure_entries(*final(map)) == raw_structure_entries(*old(map)).insert(name@, data),
{
    map.inner.insert(name, data);
}

/// `HashMap::iter`: every name of the map once, each with what the map holds
/// under it, in an order that is not told.
#[verifier::external_body]
pub(crate) fn raw_structure_map_iter(map: &RawStructureMap) -> (entries: Vec<
    (&String, &RawStructureData),
>)
    ensures
        forall|i: int|
            0 <= i < entries@.len() ==> raw_structure_entries(*map).contains_key(
                (#[trigger] entries@[i]).0@,
            ) && raw_structure_entries(*map)[entries@[i].0@] == *entries@[i].1,
        forall|i: int, j: int|
            0 <= i < j < entries@.len() ==> (#[trigger] entries@[i]).0@ != (
            #[trigger] entries@[j]).0@,
        forall|name: Seq<char>| #[trigger]
            raw_structure_entries(*map).contains_key(name) ==> exists|i: int|
                0 <= i < entries@.len() && (#[trigger] entries@[i]).0@ == name,
{
    map.inner.iter().collect()
}

} // verus!
