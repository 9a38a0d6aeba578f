//! How new structures come to be built.

use crate::identifiers::spec_name_hash;
use crate::items::{ItemCount, ItemId};
use crate::organisms::StructureId;
use vstd::prelude::*;

verus! {

/// What it takes to build a structure.
#[derive(Clone, Debug)]
pub struct ConstructionData {
    /// The work that the builders must put in, in ticks; `None` where none is needed.
    pub work: Option<u32>,
    /// The items that must be brought to the site.
    pub materials: Vec<ItemCount>,
}

impl Default for ConstructionData {
    fn default() -> (data: Self)
        ensures
            data.work == None::<u32>,
            data.materials@ == Seq::<ItemCount>::empty(),
    {
        ConstructionData { work: None, materials: Vec::new() }
    }
}

/// How a structure comes into the world.
#[derive(Clone, Debug)]
pub enum ConstructionStrategy {
    /// It grows out of another structure, which is built in its place.
    Seedling(StructureId),
    /// It is built as it is.
    Direct(ConstructionData),
    /// It cannot be built: it is part of the map.
    Landmark,
}

/// What it takes to build a structure, as the files state it.
#[derive(Clone, Debug)]
pub struct RawConstructionData {
    pub work: Option<u32>,
    /// The items that must be brought, each by name.
    pub materials: Vec<(String, u32)>,
}

/// How a structure comes into the world, as the files state it.
#[derive(Clone, Debug)]
pub enum RawConstructionStrategy {
    /// The name of the structure that it grows out of.
    Seedling(String),
    /// It is built as it is.
    Direct(RawConstructionData),
    /// It cannot be built.
    Landmark,
}

/// The count of an item that a file names.
pub open spec fn spec_material(named: (String, u32)) -> ItemCount {
    ItemCount { item_id: ItemId { value: spec_name_hash(named.0@) }, count: named.1 }
}

impl ConstructionData {
    /// Whether this is what `raw` states, with each item under its identifier.
    pub open spec fn is_made_from(&self, raw: RawConstructionData) -> bool {
        &&& self.work == raw.work
        &&& self.materials@ == raw.materials@.map_values(|named: (String, u32)| spec_material(named))
    }
}

impl ConstructionData {
    /// What `raw` states, with each item under its identifier.
    pub fn from_raw(raw: &RawConstructionData) -> (data: Self)
        ensures
            data.is_made_from(*raw),
    {
        let mut materials: Vec<ItemCount> = Vec::new();
        let mut i: usize = 0;
        while i < raw.materials.len()
            invariant
                i <= raw.materials.len(),
                materials@ == raw.materials@.take(i as int).map_values(
                    |named: (String, u32)| spec_material(named),
                ),
            decreases raw.materials.len() - i,
        {
            let item_id = ItemId::from_name(raw.materials[i].0.as_str());
            materials.push(ItemCount { item_id, count: raw.materials[i].1 });
            assert(raw.materials@.take(i + 1) =~= raw.materials@.take(i as int).push(
                raw.materials@[i as int],
            ));
            assert(materials@ =~= raw.materials@.take(i + 1).map_values(
                |named: (String, u32)| spec_material(named),
            ));
            i += 1;
        }
        assert(raw.materials@.take(raw.materials@.len() as int) =~= raw.materials@);
        ConstructionData { work: raw.work, materials }
    }
}

impl From<RawConstructionData> for ConstructionData {
    fn from(raw: RawConstructionData) -> (data: Self)
        ensures
            data.is_made_from(raw),
    {
        Self::from_raw(&raw)
    }
}

impl vstd::std_specs::convert::FromSpecImpl<RawConstructionData> for ConstructionData {
    open spec fn obeys_from_spec() -> bool {
        false
    }

    open spec fn from_spec(raw: RawConstructionData) -> Self {
        arbitrary()
    }
}

impl ConstructionStrategy {
    /// Whether this is what `raw` states, with each name under its identifier.
    pub open spec fn is_made_from(&self, raw: RawConstructionStrategy) -> bool {
        match raw {
            RawConstructionStrategy::Seedling(name) => *self == ConstructionStrategy::Seedling(
                StructureId { value: spec_name_hash(name@) },
            ),
            RawConstructionStrategy::Direct(raw_data) => self matches ConstructionStrategy::Direct(
                data,
            ) && data.is_made_from(raw_data),
            RawConstructionStrategy::Landmark => *self == ConstructionStrategy::Landmark,
        }
    }
}

impl ConstructionStrategy {
    /// What `raw` states, with each name under its identifier.
    pub fn from_raw(raw: &RawConstructionStrategy) -> (strategy: Self)
        ensures
            strategy.is_made_from(*raw),
    {
        match raw {
            RawConstructionStrategy::Seedling(name) => ConstructionStrategy::Seedling(
                StructureId::from_name(name.as_str()),
            ),
            RawConstructionStrategy::Direct(raw_data) => ConstructionStrategy::Direct(
                ConstructionData::from_raw(raw_data),
            ),
            RawConstructionStrategy::Landmark => ConstructionStrategy::Landmark,
        }
    }
}

impl From<RawConstructionStrategy> for ConstructionStrategy {
    fn from(raw: RawConstructionStrategy) -> (strategy: Self)
        ensures
            strategy.is_made_from(raw),
    {
        Self::from_raw(&raw)
    }
}

impl vstd::std_specs::convert::FromSpecImpl<RawConstructionStrategy> for ConstructionStrategy {
    open spec fn obeys_from_spec() -> bool {
        false
    }

    open spec fn from_spec(raw: RawConstructionStrategy) -> Self {
        arbitrary()
    }
}

} // verus!
