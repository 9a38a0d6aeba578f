//! The inventories of a structure: what it takes in, and what it gives out.

use crate::inventory::{AddOneItemError, Inventory, InventorySlot, InventoryView, RemoveOneItemError};
use crate::items::{ItemCount, ItemId, ItemKind, ItemManifest, ItemTag};
use vstd::prelude::*;

verus! {

/// The items that a recipe uses up.
#[derive(Debug)]
pub enum RecipeInput {
    /// Exactly these counts, of exactly these varieties.
    Exact(Vec<ItemCount>),
}

impl RecipeInput {
    /// The counts that the recipe asks for, in order.
    pub open spec fn item_counts(&self) -> Seq<ItemCount> {
        match self {
            RecipeInput::Exact(item_counts) => item_counts@,
        }
    }
}

/// The inventory after the counts were taken one after another; or, where
/// one of them is not there to be taken, the first such count, less what is
/// there of it.
pub open spec fn consumed(inventory: InventoryView, item_counts: Seq<ItemCount>) -> Result<
    InventoryView,
    ItemCount,
>
    decreases item_counts.len(),
{
    if item_counts.len() == 0 {
        Ok(inventory)
    } else if inventory.has(item_counts[0]) {
        consumed(inventory.removed(item_counts[0]), item_counts.drop_first())
    } else {
        Err(
            ItemCount {
                item_id: item_counts[0].item_id,
                count: (item_counts[0].count - inventory.item_count(item_counts[0].item_id)) as u32,
            },
        )
    }
}

/// The items that a structure works on.
#[derive(Debug)]
pub enum InputInventory {
    /// Slots that each take one given variety of item.
    Exact {
        /// The slots.
        inventory: Inventory,
    },
    /// Slots that take any item with a given tag.
    Tagged {
        /// The tag that an item must carry.
        tag: ItemTag,
        /// The slots.
        inventory: Inventory,
    },
}

impl InputInventory {
    /// The slots behind either form.
    pub open spec fn spec_inventory(&self) -> Inventory {
        match self {
            InputInventory::Exact { inventory } => *inventory,
            InputInventory::Tagged { inventory, .. } => *inventory,
        }
    }

    /// The tag that items must carry, if this inventory goes by a tag.
    pub open spec fn spec_tag(&self) -> Option<ItemTag> {
        match self {
            InputInventory::Exact { .. } => None,
            InputInventory::Tagged { tag, .. } => Some(*tag),
        }
    }

    /// The invariant of an input inventory.
    pub open spec fn wf(&self) -> bool {
        self.spec_inventory().wf()
    }

    /// Whether items of `item_id` pass the tag, where there is one.
    pub open spec fn passes_tag(&self, item_id: ItemId, manifest: &ItemManifest) -> bool {
        match self.spec_tag() {
            None => true,
            Some(tag) => manifest.spec_has_tag(item_id, tag),
        }
    }

    /// How many more items of `item_id` can be added: none where they do not
    /// pass the tag, else what the slots have room for.
    pub open spec fn remaining_space(&self, item_id: ItemId, manifest: &ItemManifest) -> nat {
        if self.passes_tag(item_id, manifest) {
            self.spec_inventory()@.remaining_space(item_id, manifest)
        } else {
            0
        }
    }

    /// Whether `item_count` passes the tag, where there is one, and fits in the slots.
    pub open spec fn fits(&self, item_count: ItemCount, manifest: &ItemManifest) -> bool {
        &&& self.passes_tag(item_count.item_id, manifest)
        &&& self.spec_inventory()@.fits(item_count, manifest)
    }

    /// The kind of item that a slot of this inventory asks for: the slot's
    /// own variety, or any item with the inventory's tag.
    pub open spec fn wanted_kind(&self, slot: InventorySlot) -> ItemKind {
        match self.spec_tag() {
            None => ItemKind::Single(slot.item_id),
            Some(tag) => ItemKind::Tag(tag),
        }
    }

    /// The slots behind either form.
    pub fn inventory(&self) -> (inventory: &Inventory)
        ensures
            *inventory == self.spec_inventory(),
    {
        match self {
            InputInventory::Exact { inventory } => inventory,
            InputInventory::Tagged { inventory, .. } => inventory,
        }
    }

    /// The slots, in order.
    pub fn slots(&self) -> (slots: Vec<InventorySlot>)
        ensures
            slots@ == self.spec_inventory()@.slots,
    {
        self.inventory().slots()
    }

    /// Adds all of `item_count`, or nothing where it does not pass the tag or
    /// does not fit in full.
    pub fn add_item_all_or_nothing(&mut self, item_count: &ItemCount, manifest: &ItemManifest) -> (result:
        Result<(), AddOneItemError>)
        requires
            old(self).wf(),
        ensures
            final(self).wf(),
            final(self).spec_tag() == old(self).spec_tag(),
            result is Ok <==> old(self).fits(*item_count, manifest),
            result is Ok ==> final(self).spec_inventory()@ == old(self).spec_inventory()@.added(
                *item_count,
                manifest,
            ),
            result matches Err(error) ==> {
                &&& final(self).spec_inventory()@ == old(self).spec_inventory()@
                &&& error.excess_count.item_id == item_count.item_id
                &&& error.excess_count.count == item_count.count - old(self).remaining_space(
                    item_count.item_id,
                    manifest,
                )
            },
    {
        match self {
            InputInventory::Exact { inventory } => inventory.add_item_all_or_nothing(
                item_count,
                manifest,
            ),
            InputInventory::Tagged { tag, inventory } => {
                if manifest.has_tag(item_count.item_id, *tag) {
                    inventory.add_item_all_or_nothing(item_count, manifest)
                } else {
                    Err(AddOneItemError { excess_count: *item_count })
                }
            },
        }
    }

    /// Takes everything that `recipe_input` asks for, or nothing where any of
    /// it is missing.
    pub fn consume_items(&mut self, recipe_input: &RecipeInput, manifest: &ItemManifest) -> (result:
        Result<(), RemoveOneItemError>)
        requires
            old(self).wf(),
        ensures
            final(self).wf(),
            final(self).spec_tag() == old(self).spec_tag(),
            result is Ok ==> Ok::<InventoryView, ItemCount>(final(self).spec_inventory()@)
                == consumed(old(self).spec_inventory()@, recipe_input.item_counts()),
            result matches Err(error) ==> {
                &&& final(self).spec_inventory()@ == old(self).spec_inventory()@
                &&& Err::<InventoryView, ItemCount>(error.excess_count) == consumed(
                    old(self).spec_inventory()@,
                    recipe_input.item_counts(),
                )
            },
    {
        match self {
            InputInventory::Exact { inventory } => remove_items_all_or_nothing(
                inventory,
                recipe_input,
            ),
            InputInventory::Tagged { inventory, .. } => remove_items_all_or_nothing(
                inventory,
                recipe_input,
            ),
        }
    }

    /// Drops the slots that hold nothing.
    pub fn clear_empty_slots(&mut self)
        requires
            old(self).wf(),
        ensures
            final(self).wf(),
            final(self).spec_tag() == old(self).spec_tag(),
            final(self).spec_inventory()@ == old(self).spec_inventory()@.cleared(),
    {
        match self {
            InputInventory::Exact { inventory } => inventory.clear_empty_slots(),
            InputInventory::Tagged { inventory, .. } => inventory.clear_empty_slots(),
        }
    }

    /// Whether every slot is in use and full.
    pub fn is_full(&self) -> (full: bool)
        ensures
            full == self.spec_inventory()@.is_full(),
    {
        self.inventory().is_full()
    }
}

/// Takes the counts of `recipe_input` from `inventory` one after another, and
/// puts back what was taken where one of them is missing.
pub fn remove_items_all_or_nothing(inventory: &mut Inventory, recipe_input: &RecipeInput) -> (result:
    Result<(), RemoveOneItemError>)
    requires
        old(inventory).wf(),
    ensures
        final(inventory).wf(),
        result is Ok ==> Ok::<InventoryView, ItemCount>(final(inventory)@) == consumed(
            old(inventory)@,
            recipe_input.item_counts(),
        ),
        result matches Err(error) ==> {
            &&& final(inventory)@ == old(inventory)@
            &&& Err::<InventoryView, ItemCount>(error.excess_count) == consumed(
                old(inventory)@,
                recipe_input.item_counts(),
            )
        },
{
    let RecipeInput::Exact(item_counts) = recipe_input;
    let saved = inventory.clone();
    let mut i: usize = 0;
    assert(item_counts@.skip(0) =~= item_counts@);
    while i < item_counts.len()
        invariant
            i <= item_counts.len(),
            inventory.wf(),
            saved.wf(),
            saved@ == old(inventory)@,
            item_counts@ == recipe_input.item_counts(),
            consumed(old(inventory)@, item_counts@) == consumed(
                inventory@,
                item_counts@.skip(i as int),
            ),
        decreases item_counts.len() - i,
    {
        let ghost rest = item_counts@.skip(i as int);
        assert(rest.len() > 0 && rest[0] == item_counts@[i as int]);
        assert(rest.drop_first() =~= item_counts@.skip(i + 1));
        match inventory.try_remove_item(&item_counts[i]) {
            Ok(()) => {},
            Err(error) => {
                *inventory = saved;
                return Err(error);
            },
        }
        i += 1;
    }
    assert(item_counts@.skip(i as int).len() == 0);
    Ok(())
}

/// The items that a structure has made or gathered.
#[derive(Debug)]
pub struct OutputInventory {
    /// The slots.
    pub inventory: Inventory,
}

impl OutputInventory {
    /// The invariant of an output inventory.
    pub open spec fn wf(&self) -> bool {
        self.inventory.wf()
    }

    /// The slots, in order.
    pub fn slots(&self) -> (slots: Vec<InventorySlot>)
        ensures
            slots@ == self.inventory@.slots,
    {
        self.inventory.slots()
    }

    /// Adds all of `item_count`, or nothing where it does not fit in full.
    pub fn add_item_all_or_nothing(&mut self, item_count: &ItemCount, manifest: &ItemManifest) -> (result:
        Result<(), AddOneItemError>)
        requires
            old(self).wf(),
        ensures
            final(self).wf(),
            result is Ok <==> old(self).inventory@.fits(*item_count, manifest),
            result is Ok ==> final(self).inventory@ == old(self).inventory@.added(
                *item_count,
                manifest,
            ),
            result matches Err(error) ==> {
                &&& final(self).inventory@ == old(self).inventory@
                &&& error.excess_count.item_id == item_count.item_id
                &&& error.excess_count.count == item_count.count
                    - old(self).inventory@.remaining_space(item_count.item_id, manifest)
            },
    {
        self.inventory.add_item_all_or_nothing(item_count, manifest)
    }

    /// Takes all of `item_count`, or nothing where the inventory holds less.
    pub fn try_remove_item(&mut self, item_count: &ItemCount) -> (result: Result<
        (),
        RemoveOneItemError,
    >)
        requires
            old(self).wf(),
        ensures
            final(self).wf(),
            result is Ok <==> old(self).inventory@.has(*item_count),
            result is Ok ==> final(self).inventory@ == old(self).inventory@.removed(*item_count),
            result matches Err(error) ==> {
                &&& final(self).inventory@ == old(self).inventory@
                &&& error.excess_count.item_id == item_count.item_id
                &&& error.excess_count.count == item_count.count - old(self).inventory@.item_count(
                    item_count.item_id,
                )
            },
    {
        self.inventory.try_remove_item(item_count)
    }

    /// Drops the slots that hold nothing, so that other items can use them.
    pub fn clear_empty_slots(&mut self)
        requires
            old(self).wf(),
        ensures
            final(self).wf(),
            final(self).inventory@ == old(self).inventory@.cleared(),
    {
        self.inventory.clear_empty_slots()
    }

    /// Whether every slot is in use and full.
    pub fn is_full(&self) -> (full: bool)
        ensures
            full == self.inventory@.is_full(),
    {
        self.inventory.is_full()
    }
}

} // verus!
