//! The items that lie loose on a tile of the map.

use crate::inventory::{Inventory, InventoryView};
use crate::items::{ItemCount, ItemManifest};
use vstd::prelude::*;

verus! {

/// The litter of one tile: items that belong to nobody.
///
/// It holds them as an inventory does, in slots of one stack each, but takes
/// every variety and is given as many slots as can be counted.
#[derive(Debug)]
pub struct Litter {
    /// The items on the ground.
    pub contents: Inventory,
}

impl Litter {
    /// The invariant of a litter pool.
    pub open spec fn wf(&self) -> bool {
        self.contents.wf()
    }

    /// A tile with nothing on it.
    pub fn new() -> (litter: Self)
        ensures
            litter.wf(),
            litter.contents@.slots == Seq::<crate::inventory::InventorySlot>::empty(),
            litter.contents@.max_slot_count == usize::MAX,
            litter.contents@.reserved_for == None::<crate::items::ItemKind>,
    {
        Litter { contents: Inventory::new(usize::MAX, None) }
    }
}

/// Litter does not run full: as long as it is not kept for any kind of item
/// and has slots to spare, it takes any count of an item whose stacks hold
/// at least one.
pub proof fn lemma_litter_takes_all(
    contents: InventoryView,
    item_count: ItemCount,
    manifest: &ItemManifest,
)
    requires
        contents.wf(),
        contents.reserved_for is None,
        contents.max_slot_count - contents.slots.len() >= u32::MAX,
        manifest.spec_stack_size(item_count.item_id) >= 1,
    ensures
        contents.fits(item_count, manifest),
{
    let free = contents.max_slot_count - contents.slots.len();
    let stack = manifest.spec_stack_size(item_count.item_id);
    assert(free * stack >= u32::MAX) by (nonlinear_arith)
        requires
            free >= u32::MAX,
            stack >= 1,
    ;
}

impl Clone for Litter {
    fn clone(&self) -> (copy: Self)
        ensures
            copy.contents@ == self.contents@,
    {
        Litter { contents: self.contents.clone() }
    }
}

} // verus!
