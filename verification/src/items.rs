//! Items, the kinds that filter them, and the catalogue that describes them.

use crate::identifiers::{name_hash, spec_name_hash};
use std::collections::HashMap;
use vstd::prelude::*;

verus! {

broadcast use vstd::std_specs::hash::group_hash_axioms;

/// Identifies one variety of item.
#[derive(Clone, Copy, Debug, PartialEq, Eq, Structural, Hash)]
pub struct ItemId {
    pub value: u64,
}

impl ItemId {
    /// The identifier of the variety called `name`.
    pub fn from_name(name: &str) -> (item_id: Self)
        ensures
            item_id.value == spec_name_hash(name@),
    {
        ItemId { value: name_hash(name) }
    }
}

/// Identifies a category of items; the catalogue says which varieties carry it.
#[derive(Clone, Copy, Debug, PartialEq, Eq, Structural, Hash)]
pub struct ItemTag {
    pub value: u64,
}

/// Either one variety of item, or every variety that carries a tag.
#[derive(Clone, Copy, Debug, PartialEq, Eq, Structural, Hash)]
pub enum ItemKind {
    /// Exactly this variety.
    Single(ItemId),
    /// Any variety that carries this tag.
    Tag(ItemTag),
}

/// A number of items of one variety.
#[derive(Clone, Copy, Debug, PartialEq, Eq, Structural, Hash)]
pub struct ItemCount {
    pub item_id: ItemId,
    pub count: u32,
}

impl ItemCount {
    /// `count` items of the variety `item_id`.
    pub fn new(item_id: ItemId, count: u32) -> (item_count: Self)
        ensures
            item_count.item_id == item_id,
            item_count.count == count,
    {
        ItemCount { item_id, count }
    }

    /// A single item of the variety `item_id`.
    pub fn one(item_id: ItemId) -> (item_count: Self)
        ensures
            item_count.item_id == item_id,
            item_count.count == 1,
    {
        ItemCount { item_id, count: 1 }
    }
}

/// What the catalogue records of one variety of item.
#[derive(Clone, Debug)]
pub struct ItemData {
    /// How many items of this variety one inventory slot can hold.
    pub stack_size: u32,
    /// The tags that this variety carries.
    pub tags: Vec<ItemTag>,
}

/// The catalogue of item varieties, read by the inventories.
pub struct ItemManifest {
    data_map: HashMap<u64, ItemData>,
}

impl View for ItemManifest {
    type V = Map<u64, ItemData>;

    closed spec fn view(&self) -> Map<u64, ItemData> {
        self.data_map@
    }
}

impl ItemManifest {
    /// How many items of `item_id` fit in one slot; 0 for a variety that the
    /// catalogue does not know.
    pub open spec fn spec_stack_size(&self, item_id: ItemId) -> nat {
        if self@.contains_key(item_id.value) {
            self@[item_id.value].stack_size as nat
        } else {
            0
        }
    }

    /// Whether the catalogue knows `item_id` and gives it `tag`.
    pub open spec fn spec_has_tag(&self, item_id: ItemId, tag: ItemTag) -> bool {
        self@.contains_key(item_id.value) && self@[item_id.value].tags@.contains(tag)
    }

    /// Whether `item_id` is of the kind `kind`.
    pub open spec fn spec_matches(&self, kind: ItemKind, item_id: ItemId) -> bool {
        match kind {
            ItemKind::Single(id) => id == item_id,
            ItemKind::Tag(tag) => self.spec_has_tag(item_id, tag),
        }
    }

    /// A catalogue without entries.
    pub fn new() -> (manifest: Self)
        ensures
            manifest@ == Map::<u64, ItemData>::empty(),
    {
        ItemManifest { data_map: HashMap::new() }
    }

    /// Records `data` for `item_id`, in place of what was recorded before.
    pub fn insert(&mut self, item_id: ItemId, data: ItemData)
        ensures
            final(self)@ == old(self)@.insert(item_id.value, data),
    {
        self.data_map.insert(item_id.value, data);
    }

    /// Whether the catalogue has an entry for `item_id`.
    pub fn contains(&self, item_id: ItemId) -> (known: bool)
        ensures
            known == self@.contains_key(item_id.value),
    {
        self.data_map.contains_key(&item_id.value)
    }

    /// How many items of `item_id` fit in one slot.
    pub fn stack_size(&self, item_id: ItemId) -> (size: u32)
        ensures
            size == self.spec_stack_size(item_id),
    {
        match self.data_map.get(&item_id.value) {
            Some(data) => data.stack_size,
            None => 0,
        }
    }

    /// Whether `item_id` carries `tag`.
    pub fn has_tag(&self, item_id: ItemId, tag: ItemTag) -> (carries: bool)
        ensures
            carries == self.spec_has_tag(item_id, tag),
    {
        match self.data_map.get(&item_id.value) {
            Some(data) => {
                let mut i: usize = 0;
                while i < data.tags.len()
                    invariant
                        i <= data.tags.len(),
                        self@.contains_key(item_id.value),
                        self@[item_id.value] == *data,
                        forall|j: int| 0 <= j < i ==> data.tags@[j] != tag,
                    decreases data.tags.len() - i,
                {
                    if data.tags[i] == tag {
                        assert(data.tags@[i as int] == tag);
                        return true;
                    }
                    i += 1;
                }
                false
            },
            None => false,
        }
    }

    /// Whether `item_id` is of the kind `kind`.
    pub fn matches(&self, kind: ItemKind, item_id: ItemId) -> (is_of_kind: bool)
        ensures
            is_of_kind == self.spec_matches(kind, item_id),
    {
        match kind {
            ItemKind::Single(id) => id == item_id,
            ItemKind::Tag(tag) => self.has_tag(item_id, tag),
        }
    }
}

} // verus!
