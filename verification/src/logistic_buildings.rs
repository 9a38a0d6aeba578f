//! Structures that move items: those that put what they hold on the ground
//! before them, those that take in what lies on their own tile, and the
//! signals by which both say what they still have room for.

use crate::geometry::{Facing, Footprint, VoxelPos, WaterDepth};
use crate::inventories::{consumed, InputInventory, OutputInventory, RecipeInput};
use crate::inventory::{amount_before, amount_from, InventorySlot, InventoryView};
use crate::items::{ItemCount, ItemId, ItemKind, ItemManifest};
use crate::litter::Litter;
use crate::quantities::{
    lemma_added_item_count, lemma_added_remaining_space, lemma_amount_before_grows,
    lemma_cleared_item_count, lemma_removed_item_count,
};
use crate::signals::{Emitter, SignalStrength, SignalType};
use vstd::prelude::*;

verus! {

/// How strong the signals of these structures are.
pub const LOGISTIC_SIGNAL_STRENGTH: u32 = 10;

/// What a slot holds, as a count of its variety.
pub open spec fn held_by(slot: InventorySlot) -> ItemCount {
    ItemCount { item_id: slot.item_id, count: slot.count }
}

/// Two inventories between which items move: one gives, the other takes.
pub struct Transfer {
    pub giver: InventoryView,
    pub taker: InventoryView,
}

/// One stack is offered: where the taker has room for all of it, it leaves
/// the giver and joins the taker; else both stay as they are.
pub open spec fn transfer_step(state: Transfer, item_count: ItemCount, manifest: &ItemManifest) -> Transfer {
    if state.taker.fits(item_count, manifest) {
        Transfer {
            giver: state.giver.removed(item_count),
            taker: state.taker.added(item_count, manifest),
        }
    } else {
        state
    }
}

/// The first `n` of the stacks `offered` have been offered, in order.
pub open spec fn transferred_upto(
    giver: InventoryView,
    taker: InventoryView,
    offered: Seq<InventorySlot>,
    n: int,
    manifest: &ItemManifest,
) -> Transfer
    decreases n,
{
    if n <= 0 {
        Transfer { giver, taker }
    } else {
        transfer_step(
            transferred_upto(giver, taker, offered, n - 1, manifest),
            held_by(offered[n - 1]),
            manifest,
        )
    }
}

/// Every stack that the giver held at the start has been offered to the
/// taker, in the order of the giver's slots.
pub open spec fn transferred(giver: InventoryView, taker: InventoryView, manifest: &ItemManifest) -> Transfer {
    transferred_upto(giver, taker, giver.slots, giver.slots.len() as int, manifest)
}

/// While the stacks of a giver are offered one after another, both sides stay
/// valid, the giver still holds every stack that has not been offered yet,
/// and no item is lost or made.
pub proof fn lemma_transferred_upto(
    giver: InventoryView,
    taker: InventoryView,
    n: int,
    manifest: &ItemManifest,
)
    requires
        giver.wf(),
        taker.wf(),
        0 <= n <= giver.slots.len(),
    ensures
        ({
            let state = transferred_upto(giver, taker, giver.slots, n, manifest);
            &&& state.giver.wf()
            &&& state.taker.wf()
            &&& state.giver.slots.len() == giver.slots.len()
            &&& state.giver.max_slot_count == giver.max_slot_count
            &&& state.giver.reserved_for == giver.reserved_for
            &&& state.taker.max_slot_count == taker.max_slot_count
            &&& state.taker.reserved_for == taker.reserved_for
            &&& forall|item_id: ItemId| #[trigger]
                state.giver.item_count(item_id) >= amount_from(giver.slots, item_id, n)
            &&& forall|item_id: ItemId| #[trigger]
                state.giver.item_count(item_id) + state.taker.item_count(item_id)
                    == giver.item_count(item_id) + taker.item_count(item_id)
            &&& forall|item_id: ItemId| #[trigger]
                state.taker.item_count(item_id) >= taker.item_count(item_id)
            &&& forall|item_id: ItemId| #[trigger]
                state.taker.remaining_space(item_id, manifest) + state.taker.item_count(item_id)
                    <= taker.remaining_space(item_id, manifest) + taker.item_count(item_id)
        }),
    decreases n,
{
    if n > 0 {
        lemma_transferred_upto(giver, taker, n - 1, manifest);
        let before = transferred_upto(giver, taker, giver.slots, n - 1, manifest);
        let item_count = held_by(giver.slots[n - 1]);
        let after = transfer_step(before, item_count, manifest);
        lemma_amount_before_grows(giver.slots, item_count.item_id, n, giver.slots.len() as int);
        assert(before.giver.item_count(item_count.item_id) >= amount_from(
            giver.slots,
            item_count.item_id,
            n - 1,
        ));
        assert(before.giver.has(item_count));
        if before.taker.fits(item_count, manifest) {
            lemma_removed_item_count(before.giver, item_count, item_count.item_id);
            lemma_added_item_count(before.taker, item_count, manifest, item_count.item_id);
        }
        assert forall|item_id: ItemId| #[trigger]
            after.giver.item_count(item_id) >= amount_from(giver.slots, item_id, n) by {
            assert(before.giver.item_count(item_id) >= amount_from(giver.slots, item_id, n - 1));
            if before.taker.fits(item_count, manifest) {
                lemma_removed_item_count(before.giver, item_count, item_id);
            }
        }
        assert forall|item_id: ItemId| #[trigger]
            after.giver.item_count(item_id) + after.taker.item_count(item_id) == giver.item_count(
                item_id,
            ) + taker.item_count(item_id) by {
            assert(before.giver.item_count(item_id) + before.taker.item_count(item_id)
                == giver.item_count(item_id) + taker.item_count(item_id));
            if before.taker.fits(item_count, manifest) {
                lemma_removed_item_count(before.giver, item_count, item_id);
                lemma_added_item_count(before.taker, item_count, manifest, item_id);
            }
        }
        assert forall|item_id: ItemId| #[trigger]
            after.taker.item_count(item_id) >= taker.item_count(item_id) by {
            assert(before.taker.item_count(item_id) >= taker.item_count(item_id));
            if before.taker.fits(item_count, manifest) {
                lemma_added_item_count(before.taker, item_count, manifest, item_id);
            }
        }
        assert forall|item_id: ItemId| #[trigger]
            after.taker.remaining_space(item_id, manifest) + after.taker.item_count(item_id)
                <= taker.remaining_space(item_id, manifest) + taker.item_count(item_id) by {
            assert(before.taker.remaining_space(item_id, manifest) + before.taker.item_count(
                item_id,
            ) <= taker.remaining_space(item_id, manifest) + taker.item_count(item_id));
            if before.taker.fits(item_count, manifest) {
                lemma_added_item_count(before.taker, item_count, manifest, item_id);
                lemma_added_remaining_space(before.taker, item_count, manifest, item_id);
            }
        }
    } else {
        assert forall|item_id: ItemId| #[trigger]
            giver.item_count(item_id) >= amount_from(giver.slots, item_id, n) by {
            assert(amount_before(giver.slots, item_id, 0) == 0);
        }
    }
}

/// No item is lost or made when every stack of a giver is offered to a
/// taker: of each variety, the taker gains exactly what the giver gives up,
/// and no more than it had room for.
pub proof fn lemma_transfer_conserves(
    giver: InventoryView,
    taker: InventoryView,
    manifest: &ItemManifest,
    item_id: ItemId,
)
    requires
        giver.wf(),
        taker.wf(),
    ensures
        ({
            let after = transferred(giver, taker, manifest);
            &&& after.giver.wf()
            &&& after.taker.wf()
            &&& after.taker.item_count(item_id) >= taker.item_count(item_id)
            &&& giver.item_count(item_id) - after.giver.item_count(item_id)
                == after.taker.item_count(item_id) - taker.item_count(item_id)
            &&& after.giver.item_count(item_id) + after.taker.item_count(item_id)
                == giver.item_count(item_id) + taker.item_count(item_id)
            &&& after.taker.remaining_space(item_id, manifest) + after.taker.item_count(item_id)
                - taker.item_count(item_id) <= taker.remaining_space(item_id, manifest)
        }),
{
    lemma_transferred_upto(giver, taker, giver.slots.len() as int, manifest);
    let after = transferred(giver, taker, manifest);
    assert(after.taker.remaining_space(item_id, manifest) + after.taker.item_count(item_id)
        <= taker.remaining_space(item_id, manifest) + taker.item_count(item_id));
    assert(after.taker.item_count(item_id) >= taker.item_count(item_id));
    assert(after.giver.item_count(item_id) + after.taker.item_count(item_id) == giver.item_count(
        item_id,
    ) + taker.item_count(item_id));
}

/// Where a releaser puts its items: the place one step before it, the way it faces.
pub fn release_target(structure_pos: &VoxelPos, structure_facing: &Facing) -> (target: VoxelPos)
    requires
        structure_pos.spec_has_neighbors(),
    ensures
        target == structure_pos.spec_neighbor(structure_facing.direction),
{
    structure_pos.neighbor(structure_facing.direction)
}

/// A structure that puts items out offers each stack of its input inventory
/// to the litter of the tile before it. A stack that the litter takes in full
/// leaves the inventory; a stack that does not fit stays for another time.
pub fn release_items(
    input_inventory: &mut InputInventory,
    litter: &mut Litter,
    item_manifest: &ItemManifest,
)
    requires
        old(input_inventory).wf(),
        old(litter).wf(),
    ensures
        final(input_inventory).wf(),
        final(litter).wf(),
        final(input_inventory).spec_tag() == old(input_inventory).spec_tag(),
        (Transfer {
            giver: final(input_inventory).spec_inventory()@,
            taker: final(litter).contents@,
        }) == transferred(
            old(input_inventory).spec_inventory()@,
            old(litter).contents@,
            item_manifest,
        ),
{
    let cloned_inventory = input_inventory.slots();
    let ghost giver = input_inventory.spec_inventory()@;
    let ghost taker = litter.contents@;
    let mut i: usize = 0;
    while i < cloned_inventory.len()
        invariant
            i <= cloned_inventory.len(),
            cloned_inventory@ == giver.slots,
            giver.wf(),
            taker.wf(),
            input_inventory.wf(),
            litter.wf(),
            input_inventory.spec_tag() == old(input_inventory).spec_tag(),
            (Transfer { giver: input_inventory.spec_inventory()@, taker: litter.contents@ })
                == transferred_upto(giver, taker, giver.slots, i as int, item_manifest),
        decreases cloned_inventory.len() - i,
    {
        let item_count = cloned_inventory[i].item_count();
        proof {
            lemma_transferred_upto(giver, taker, i as int, item_manifest);
            lemma_amount_before_grows(
                giver.slots,
                item_count.item_id,
                i + 1,
                giver.slots.len() as int,
            );
            assert(input_inventory.spec_inventory()@.item_count(item_count.item_id) >= amount_from(
                giver.slots,
                item_count.item_id,
                i as int,
            ));
            assert(input_inventory.spec_inventory()@.has(item_count));
        }
        if litter.contents.add_item_all_or_nothing(&item_count, item_manifest).is_ok() {
            let recipe_input = RecipeInput::Exact(vec![item_count]);
            proof {
                let asked = recipe_input.item_counts();
                assert(asked.len() == 1 && asked[0] == item_count);
                assert(asked.drop_first().len() == 0);
                assert(consumed(input_inventory.spec_inventory()@, asked) == consumed(
                    input_inventory.spec_inventory()@.removed(item_count),
                    asked.drop_first(),
                ));
            }
            let _ = input_inventory.consume_items(&recipe_input, item_manifest);
        }
        i += 1;
    }
}

/// Every stack of the litter is offered to the output inventory once.
fn absorb_pass(
    output_inventory: &mut OutputInventory,
    litter: &mut Litter,
    item_manifest: &ItemManifest,
)
    requires
        old(output_inventory).wf(),
        old(litter).wf(),
    ensures
        final(output_inventory).wf(),
        final(litter).wf(),
        (Transfer { giver: final(litter).contents@, taker: final(output_inventory).inventory@ })
            == transferred(old(litter).contents@, old(output_inventory).inventory@, item_manifest),
{
    let on_tile = litter.contents.slots();
    let ghost giver = litter.contents@;
    let ghost taker = output_inventory.inventory@;
    let mut i: usize = 0;
    while i < on_tile.len()
        invariant
            i <= on_tile.len(),
            on_tile@ == giver.slots,
            giver.wf(),
            taker.wf(),
            output_inventory.wf(),
            litter.wf(),
            (Transfer { giver: litter.contents@, taker: output_inventory.inventory@ })
                == transferred_upto(giver, taker, giver.slots, i as int, item_manifest),
        decreases on_tile.len() - i,
    {
        let item_count = on_tile[i].item_count();
        proof {
            lemma_transferred_upto(giver, taker, i as int, item_manifest);
            lemma_amount_before_grows(
                giver.slots,
                item_count.item_id,
                i + 1,
                giver.slots.len() as int,
            );
            assert(litter.contents@.item_count(item_count.item_id) >= amount_from(
                giver.slots,
                item_count.item_id,
                i as int,
            ));
            assert(litter.contents@.has(item_count));
        }
        if output_inventory.add_item_all_or_nothing(&item_count, item_manifest).is_ok() {
            let _ = litter.contents.try_remove_item(&item_count);
        }
        i += 1;
    }
}

/// What a structure that takes items in, and the litter of its tile, come to:
/// the empty slots of the inventory are dropped; unless it is full then, every
/// stack of the litter is offered to it once, and, where the structure reaches
/// above the water, every stack that is left is offered once more.
pub open spec fn absorbed(
    inventory: InventoryView,
    litter: InventoryView,
    above_water: bool,
    manifest: &ItemManifest,
) -> Transfer {
    let cleared = inventory.cleared();
    if cleared.is_full() {
        Transfer { giver: litter, taker: cleared }
    } else {
        let on_ground = transferred(litter, cleared, manifest);
        if above_water {
            transferred(on_ground.giver, on_ground.taker, manifest)
        } else {
            on_ground
        }
    }
}

/// Whether a structure with this footprint reaches above the water.
pub open spec fn reaches_above(footprint: &Footprint, water_depth: &WaterDepth) -> bool {
    footprint.spec_max_height().value > water_depth.spec_surface_water_depth().value
}

/// A structure that takes items in gathers the litter of its own tile: first
/// what lies on the ground, then, where it stands higher than the water, what
/// floats on it.
pub fn absorb_items(
    footprint: &Footprint,
    output_inventory: &mut OutputInventory,
    litter: &mut Litter,
    water_depth: &WaterDepth,
    item_manifest: &ItemManifest,
)
    requires
        old(output_inventory).wf(),
        old(litter).wf(),
    ensures
        final(output_inventory).wf(),
        final(litter).wf(),
        (Transfer { giver: final(litter).contents@, taker: final(output_inventory).inventory@ })
            == absorbed(
            old(output_inventory).inventory@,
            old(litter).contents@,
            reaches_above(footprint, water_depth),
            item_manifest,
        ),
{
    output_inventory.clear_empty_slots();

    if output_inventory.is_full() {
        return ;
    }
    absorb_pass(output_inventory, litter, item_manifest);

    // Only a structure that is tall enough reaches what floats.
    if footprint.max_height().value > water_depth.surface_water_depth().value {
        proof {
            lemma_cleared_item_count(old(output_inventory).inventory@, ItemId { value: 0 });
            lemma_transferred_upto(
                old(litter).contents@,
                old(output_inventory).inventory@.cleared(),
                old(litter).contents@.slots.len() as int,
                item_manifest,
            );
        }
        absorb_pass(output_inventory, litter, item_manifest);
    }
}

/// What a structure takes in comes from the litter of its tile and from
/// nowhere else. Of each variety it gains what the litter gives up, and so no
/// more than lay there, nor more than it had room for once its empty slots
/// were dropped. A structure that does not reach above the water makes the
/// one pass over what lies on the ground; one that does makes a second pass
/// over what the first has left, and ends with no less.
pub proof fn lemma_absorbed_bounds(
    inventory: InventoryView,
    litter: InventoryView,
    manifest: &ItemManifest,
    item_id: ItemId,
)
    requires
        inventory.wf(),
        litter.wf(),
    ensures
        ({
            let low = absorbed(inventory, litter, false, manifest);
            let tall = absorbed(inventory, litter, true, manifest);
            &&& low.giver.wf() && low.taker.wf() && tall.giver.wf() && tall.taker.wf()
            &&& low.taker.item_count(item_id) - inventory.item_count(item_id) == litter.item_count(
                item_id,
            ) - low.giver.item_count(item_id)
            &&& tall.taker.item_count(item_id) - inventory.item_count(item_id)
                == litter.item_count(item_id) - tall.giver.item_count(item_id)
            &&& inventory.item_count(item_id) <= low.taker.item_count(item_id)
                <= tall.taker.item_count(item_id) <= inventory.item_count(item_id)
                + litter.item_count(item_id)
            &&& tall.taker.item_count(item_id) - inventory.item_count(item_id)
                <= inventory.cleared().remaining_space(item_id, manifest)
            &&& !inventory.cleared().is_full() ==> {
                &&& low == transferred(litter, inventory.cleared(), manifest)
                &&& tall == transferred(low.giver, low.taker, manifest)
            }
        }),
{
    let cleared = inventory.cleared();
    lemma_cleared_item_count(inventory, item_id);
    if !cleared.is_full() {
        lemma_transfer_conserves(litter, cleared, manifest, item_id);
        let low = transferred(litter, cleared, manifest);
        lemma_transfer_conserves(low.giver, low.taker, manifest, item_id);
    }
}

/// Whose signals are to be set: a structure either puts items out or takes them in.
#[derive(Clone, Copy, Debug)]
pub enum LogisticBuilding<'a> {
    /// A structure that puts out what its input inventory holds.
    Releaser(&'a InputInventory),
    /// A structure that takes litter into its output inventory.
    Absorber(&'a OutputInventory),
}

impl<'a> LogisticBuilding<'a> {
    /// The slots of the structure's inventory, in order.
    pub open spec fn slots(self) -> Seq<InventorySlot> {
        match self {
            LogisticBuilding::Releaser(input_inventory) => input_inventory.spec_inventory()@.slots,
            LogisticBuilding::Absorber(output_inventory) => output_inventory.inventory@.slots,
        }
    }

    /// The signal that the structure sends for a slot that is not full. A
    /// releaser asks for what the slot takes: its own variety, or whatever
    /// carries the tag of the inventory. An absorber offers the variety that
    /// the slot holds.
    pub open spec fn signal_for(self, slot: InventorySlot) -> (SignalType, SignalStrength) {
        match self {
            LogisticBuilding::Releaser(input_inventory) => (
                SignalType::Pull(input_inventory.wanted_kind(slot)),
                logistic_strength(),
            ),
            LogisticBuilding::Absorber(_) => (
                SignalType::Push(ItemKind::Single(slot.item_id)),
                logistic_strength(),
            ),
        }
    }
}

/// Tells the slots that have room from those that are full.
pub open spec fn has_room() -> spec_fn(InventorySlot) -> bool {
    |slot: InventorySlot| !slot.spec_is_full()
}

/// The strength of every signal sent here.
pub open spec fn logistic_strength() -> SignalStrength {
    SignalStrength { value: LOGISTIC_SIGNAL_STRENGTH }
}

/// The signals of a structure: one for each slot that is not full, in the
/// order of the slots.
pub open spec fn signals_of(building: LogisticBuilding<'_>) -> Seq<(SignalType, SignalStrength)> {
    building.slots().filter(has_room()).map_values(
        |slot: InventorySlot| building.signal_for(slot),
    )
}

/// What an emitter sends after its signals were set for `building`, whatever
/// it sent before.
pub open spec fn emitted(
    before: Seq<(SignalType, SignalStrength)>,
    building: LogisticBuilding<'_>,
) -> Seq<(SignalType, SignalStrength)> {
    signals_of(building)
}

/// Sets the signals of a structure anew from what its inventory holds now.
/// Nothing of what the emitter sent before is kept.
pub fn logistic_buildings_signals(emitter: &mut Emitter, building: LogisticBuilding<'_>)
    ensures
        final(emitter).signals@ == emitted(old(emitter).signals@, building),
        final(emitter).signals@ == signals_of(building),
{
    let signal_strength = SignalStrength::new(LOGISTIC_SIGNAL_STRENGTH);
    let ghost signal = |slot: InventorySlot| building.signal_for(slot);
    emitter.signals.clear();
    match building {
        LogisticBuilding::Releaser(input_inventory) => {
            let slots = input_inventory.slots();
            let mut i: usize = 0;
            assert(slots@.take(0).filter(has_room()) =~= Seq::<InventorySlot>::empty()) by {
                reveal(Seq::filter);
            }
            while i < slots.len()
                invariant
                    i <= slots.len(),
                    signal_strength == logistic_strength(),
                    building == LogisticBuilding::Releaser(input_inventory),
                    slots@ == building.slots(),
                    signal == |slot: InventorySlot| building.signal_for(slot),
                    emitter.signals@ == slots@.take(i as int).filter(has_room()).map_values(signal),
                decreases slots.len() - i,
            {
                let item_slot = slots[i];
                proof {
                    assert(slots@.take(i + 1) =~= slots@.take(i as int).push(item_slot));
                    slots@.take(i as int).lemma_filter_push(item_slot, has_room());
                }
                if !item_slot.is_full() {
                    let item_kind = match input_inventory {
                        InputInventory::Exact { .. } => ItemKind::Single(item_slot.item_id()),
                        InputInventory::Tagged { tag, .. } => ItemKind::Tag(*tag),
                    };
                    // A releaser asks for more, so that goods keep coming.
                    let signal_type = SignalType::Pull(item_kind);
                    let ghost kept = slots@.take(i as int).filter(has_room());
                    emitter.signals.push((signal_type, signal_strength));
                    assert(kept.push(item_slot).map_values(signal) =~= kept.map_values(signal).push(
                        signal(item_slot),
                    ));
                }
                i += 1;
            }
            assert(slots@.take(slots@.len() as int) =~= slots@);
        },
        LogisticBuilding::Absorber(output_inventory) => {
            let slots = output_inventory.slots();
            let mut i: usize = 0;
            assert(slots@.take(0).filter(has_room()) =~= Seq::<InventorySlot>::empty()) by {
                reveal(Seq::filter);
            }
            while i < slots.len()
                invariant
                    i <= slots.len(),
                    signal_strength == logistic_strength(),
                    building == LogisticBuilding::Absorber(output_inventory),
                    slots@ == building.slots(),
                    signal == |slot: InventorySlot| building.signal_for(slot),
                    emitter.signals@ == slots@.take(i as int).filter(has_room()).map_values(signal),
                decreases slots.len() - i,
            {
                let item_slot = slots[i];
                proof {
                    assert(slots@.take(i + 1) =~= slots@.take(i as int).push(item_slot));
                    slots@.take(i as int).lemma_filter_push(item_slot, has_room());
                }
                if !item_slot.is_full() {
                    let item_kind = ItemKind::Single(item_slot.item_id());
                    // An absorber offers what it holds, so that it does not clog.
                    let signal_type = SignalType::Push(item_kind);
                    let ghost kept = slots@.take(i as int).filter(has_room());
                    emitter.signals.push((signal_type, signal_strength));
                    assert(kept.push(item_slot).map_values(signal) =~= kept.map_values(signal).push(
                        signal(item_slot),
                    ));
                }
                i += 1;
            }
            assert(slots@.take(slots@.len() as int) =~= slots@);
        },
    }
}

/// The number of slots among the first `n` that are not full.
pub open spec fn open_slots_before(slots: Seq<InventorySlot>, n: int) -> nat
    decreases n,
{
    if n <= 0 {
        0
    } else if slots[n - 1].spec_is_full() {
        open_slots_before(slots, n - 1)
    } else {
        open_slots_before(slots, n - 1) + 1
    }
}

/// There are as many slots with room as the count of them says.
pub proof fn lemma_slots_with_room(slots: Seq<InventorySlot>)
    ensures
        slots.filter(has_room()).len() == open_slots_before(slots, slots.len() as int),
    decreases slots.len(),
{
    if slots.len() == 0 {
        reveal(Seq::filter);
    } else {
        let front = slots.drop_last();
        assert(slots =~= front.push(slots.last()));
        lemma_slots_with_room(front);
        front.lemma_filter_push(slots.last(), has_room());
        lemma_open_slots_agree(slots, front, front.len() as int);
    }
}

/// The count of open slots among the first `n` depends on those slots alone.
pub proof fn lemma_open_slots_agree(a: Seq<InventorySlot>, b: Seq<InventorySlot>, n: int)
    requires
        0 <= n <= a.len(),
        n <= b.len(),
        forall|j: int| 0 <= j < n ==> a[j] == b[j],
    ensures
        open_slots_before(a, n) == open_slots_before(b, n),
    decreases n,
{
    if n > 0 {
        lemma_open_slots_agree(a, b, n - 1);
    }
}

/// Whether `signal` is the signal of one of the structure's slots that are not full.
pub open spec fn answers_open_slot(
    building: LogisticBuilding<'_>,
    signal: (SignalType, SignalStrength),
) -> bool {
    exists|i: int|
        0 <= i < building.slots().len() && !(#[trigger] building.slots()[i]).spec_is_full()
            && signal == building.signal_for(building.slots()[i])
}

/// The signals of a structure answer its slots one for one: there are as many
/// signals as slots that are not full; each such slot has its signal among
/// them; and each of the signals is that of a slot that is not full. A full
/// slot adds none.
pub proof fn lemma_signals_match_slots(building: LogisticBuilding<'_>)
    ensures
        signals_of(building).len() == open_slots_before(
            building.slots(),
            building.slots().len() as int,
        ),
        forall|i: int|
            0 <= i < building.slots().len() && !(#[trigger] building.slots()[i]).spec_is_full()
                ==> signals_of(building).contains(building.signal_for(building.slots()[i])),
        forall|k: int|
            0 <= k < signals_of(building).len() ==> answers_open_slot(
                building,
                #[trigger] signals_of(building)[k],
            ),
{
    let slots = building.slots();
    let open = slots.filter(has_room());
    let signals = signals_of(building);
    lemma_slots_with_room(slots);
    assert forall|i: int| 0 <= i < slots.len() && !(#[trigger] slots[i]).spec_is_full() implies signals.contains(
        building.signal_for(slots[i]),
    ) by {
        slots.lemma_filter_contains(has_room(), i);
        let j = choose|j: int| 0 <= j < open.len() && open[j] == slots[i];
        assert(signals[j] == building.signal_for(slots[i]));
    }
    assert forall|k: int| 0 <= k < signals.len() implies answers_open_slot(
        building,
        #[trigger] signals[k],
    ) by {
        slots.lemma_filter_pred(has_room(), k);
        assert(open.contains(open[k]));
        slots.lemma_filter_contains_rev(has_room(), open[k]);
        let i = choose|i: int| 0 <= i < slots.len() && slots[i] == open[k];
        assert(!slots[i].spec_is_full());
        assert(signals[k] == building.signal_for(slots[i]));
    }
}

/// Setting the signals again, with the inventory as it was, changes nothing:
/// what an emitter sends depends on the inventory alone, and so nothing of an
/// earlier time is left in it.
pub proof fn lemma_emission_repeats(
    before: Seq<(SignalType, SignalStrength)>,
    building: LogisticBuilding<'_>,
)
    ensures
        emitted(emitted(before, building), building) == emitted(before, building),
        emitted(before, building) == emitted(Seq::empty(), building),
{
}

} // verus!
