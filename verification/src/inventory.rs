//! Slots, and the inventories made of them.
//!
//! An inventory is a row of slots. Each slot holds items of one variety, up to
//! the stack size of that variety. Items are added to the first slots that
//! have room and taken from the last slots that hold them; both either apply
//! in full or leave the inventory as it was.

use crate::items::{ItemCount, ItemId, ItemKind, ItemManifest};
use vstd::prelude::*;

verus! {

/// One compartment of an inventory.
#[derive(Clone, Copy, Debug, PartialEq, Eq, Structural)]
pub struct InventorySlot {
    /// The variety of item that the slot is for.
    pub item_id: ItemId,
    /// How many items the slot holds.
    pub count: u32,
    /// How many items the slot can hold.
    pub max_item_count: u32,
}

impl InventorySlot {
    /// The slot holds no more than it can.
    pub open spec fn wf(&self) -> bool {
        self.count <= self.max_item_count
    }

    /// The slot holds as much as it can.
    pub open spec fn spec_is_full(&self) -> bool {
        self.count == self.max_item_count
    }

    /// How many more items of `item_id` the slot can take.
    pub open spec fn space_for(&self, item_id: ItemId) -> nat {
        if self.item_id == item_id && self.count <= self.max_item_count {
            (self.max_item_count - self.count) as nat
        } else {
            0
        }
    }

    /// How many items of `item_id` the slot holds.
    pub open spec fn amount_of(&self, item_id: ItemId) -> nat {
        if self.item_id == item_id {
            self.count as nat
        } else {
            0
        }
    }

    /// The slot with its count changed to `count`.
    pub open spec fn with_count(&self, count: int) -> InventorySlot {
        InventorySlot { item_id: self.item_id, count: count as u32, max_item_count: self.max_item_count }
    }

    /// An empty slot for up to `max_item_count` items of `item_id`.
    pub fn new(item_id: ItemId, max_item_count: u32) -> (slot: Self)
        ensures
            slot == (InventorySlot { item_id, count: 0, max_item_count }),
    {
        InventorySlot { item_id, count: 0, max_item_count }
    }

    /// The variety of item that the slot is for.
    pub fn item_id(&self) -> (item_id: ItemId)
        ensures
            item_id == self.item_id,
    {
        self.item_id
    }

    /// How many items the slot holds.
    pub fn count(&self) -> (count: u32)
        ensures
            count == self.count,
    {
        self.count
    }

    /// How many items the slot can hold.
    pub fn max_item_count(&self) -> (max_item_count: u32)
        ensures
            max_item_count == self.max_item_count,
    {
        self.max_item_count
    }

    /// What the slot holds, as a count of its variety.
    pub fn item_count(&self) -> (item_count: ItemCount)
        ensures
            item_count == (ItemCount { item_id: self.item_id, count: self.count }),
    {
        ItemCount { item_id: self.item_id, count: self.count }
    }

    /// Whether the slot holds as much as it can.
    pub fn is_full(&self) -> (full: bool)
        ensures
            full == self.spec_is_full(),
    {
        self.count == self.max_item_count
    }

    /// Whether the slot holds nothing.
    pub fn is_empty(&self) -> (empty: bool)
        ensures
            empty == (self.count == 0),
    {
        self.count == 0
    }
}

/// `a - b` where that is positive, else 0.
pub open spec fn minus(a: int, b: int) -> nat {
    if a > b {
        (a - b) as nat
    } else {
        0
    }
}

/// The smaller of two numbers.
pub open spec fn least(a: int, b: int) -> int {
    if a <= b {
        a
    } else {
        b
    }
}

/// The room for items of `item_id` in the first `n` slots.
pub open spec fn space_before(slots: Seq<InventorySlot>, item_id: ItemId, n: int) -> nat
    decreases n,
{
    if n <= 0 {
        0
    } else {
        space_before(slots, item_id, n - 1) + slots[n - 1].space_for(item_id)
    }
}

/// The number of items of `item_id` in the first `n` slots.
pub open spec fn amount_before(slots: Seq<InventorySlot>, item_id: ItemId, n: int) -> nat
    decreases n,
{
    if n <= 0 {
        0
    } else {
        amount_before(slots, item_id, n - 1) + slots[n - 1].amount_of(item_id)
    }
}

/// The number of items of `item_id` in all the slots.
pub open spec fn total(slots: Seq<InventorySlot>, item_id: ItemId) -> nat {
    amount_before(slots, item_id, slots.len() as int)
}

/// The number of items of `item_id` in the slots from index `n` on.
pub open spec fn amount_from(slots: Seq<InventorySlot>, item_id: ItemId, n: int) -> int {
    total(slots, item_id) - amount_before(slots, item_id, n)
}

/// A slot after it was offered `left` items of `item_id`: it takes what it has room for.
pub open spec fn fill_slot(slot: InventorySlot, item_id: ItemId, left: nat) -> InventorySlot {
    if slot.item_id == item_id {
        slot.with_count(slot.count + least(left as int, slot.space_for(item_id) as int))
    } else {
        slot
    }
}

/// The slots after `count` items of `item_id` were offered to each in turn, first slot first.
pub open spec fn filled(slots: Seq<InventorySlot>, item_id: ItemId, count: nat) -> Seq<
    InventorySlot,
> {
    Seq::new(
        slots.len(),
        |i: int| fill_slot(slots[i], item_id, minus(count as int, space_before(slots, item_id, i) as int)),
    )
}

/// The new slots that `left` items of `item_id` take, each of `stack` items but the last.
pub open spec fn fresh(item_id: ItemId, left: nat, stack: nat) -> Seq<InventorySlot>
    decreases left,
{
    if left == 0 || stack == 0 {
        Seq::empty()
    } else {
        seq![
            InventorySlot {
                item_id,
                count: least(left as int, stack as int) as u32,
                max_item_count: stack as u32,
            },
        ] + fresh(item_id, (left - least(left as int, stack as int)) as nat, stack)
    }
}

/// A slot after `left` items of `item_id` were asked of it: it gives what it holds.
pub open spec fn drain_slot(slot: InventorySlot, item_id: ItemId, left: nat) -> InventorySlot {
    if slot.item_id == item_id {
        slot.with_count(slot.count - least(left as int, slot.count as int))
    } else {
        slot
    }
}

/// The slots after `count` items of `item_id` were asked of each in turn, last slot first.
pub open spec fn drained(slots: Seq<InventorySlot>, item_id: ItemId, count: nat) -> Seq<
    InventorySlot,
> {
    Seq::new(
        slots.len(),
        |i: int| drain_slot(slots[i], item_id, minus(count as int, amount_from(slots, item_id, i + 1))),
    )
}

/// Tells the slots that hold something from those that hold nothing.
pub open spec fn holds_items() -> spec_fn(InventorySlot) -> bool {
    |slot: InventorySlot| slot.count > 0
}

/// What an inventory is, to the contracts: its slots in order, the number of
/// slots it may grow to, and the kind of item it is kept for.
pub struct InventoryView {
    pub slots: Seq<InventorySlot>,
    pub max_slot_count: nat,
    pub reserved_for: Option<ItemKind>,
}

impl InventoryView {
    /// No slot holds more than it can, and there are no more slots than allowed.
    pub open spec fn wf(self) -> bool {
        &&& self.slots.len() <= self.max_slot_count
        &&& forall|i: int| 0 <= i < self.slots.len() ==> (#[trigger] self.slots[i]).wf()
    }

    /// Whether items of `item_id` pass the filter of this inventory.
    pub open spec fn accepts(self, item_id: ItemId, manifest: &ItemManifest) -> bool {
        match self.reserved_for {
            None => true,
            Some(kind) => manifest.spec_matches(kind, item_id),
        }
    }

    /// How many items of `item_id` the inventory holds.
    pub open spec fn item_count(self, item_id: ItemId) -> nat {
        total(self.slots, item_id)
    }

    /// How many more items of `item_id` the inventory can take: the room in
    /// the slots that are for it, and a full stack for each slot not yet in use.
    pub open spec fn remaining_space(self, item_id: ItemId, manifest: &ItemManifest) -> nat {
        if self.accepts(item_id, manifest) {
            total_space(self.slots, item_id) + minus(self.max_slot_count as int, self.slots.len() as int)
                * manifest.spec_stack_size(item_id)
        } else {
            0
        }
    }

    /// Whether all of `item_count` can be added.
    pub open spec fn fits(self, item_count: ItemCount, manifest: &ItemManifest) -> bool {
        &&& self.accepts(item_count.item_id, manifest)
        &&& item_count.count <= self.remaining_space(item_count.item_id, manifest)
    }

    /// The inventory after all of `item_count` was added: the slots for the
    /// item are filled first slot first, and what is left goes to new slots.
    pub open spec fn added(self, item_count: ItemCount, manifest: &ItemManifest) -> InventoryView {
        InventoryView {
            slots: filled(self.slots, item_count.item_id, item_count.count as nat) + fresh(
                item_count.item_id,
                minus(item_count.count as int, total_space(self.slots, item_count.item_id) as int),
                manifest.spec_stack_size(item_count.item_id),
            ),
            max_slot_count: self.max_slot_count,
            reserved_for: self.reserved_for,
        }
    }

    /// Whether the inventory holds all of `item_count`.
    pub open spec fn has(self, item_count: ItemCount) -> bool {
        item_count.count <= self.item_count(item_count.item_id)
    }

    /// The inventory after all of `item_count` was taken, last slot first.
    /// Slots that are emptied stay in place.
    pub open spec fn removed(self, item_count: ItemCount) -> InventoryView {
        InventoryView {
            slots: drained(self.slots, item_count.item_id, item_count.count as nat),
            max_slot_count: self.max_slot_count,
            reserved_for: self.reserved_for,
        }
    }

    /// The inventory without the slots that hold nothing.
    pub open spec fn cleared(self) -> InventoryView {
        InventoryView {
            slots: self.slots.filter(holds_items()),
            max_slot_count: self.max_slot_count,
            reserved_for: self.reserved_for,
        }
    }

    /// Every slot is in use and full.
    pub open spec fn is_full(self) -> bool {
        &&& self.slots.len() == self.max_slot_count
        &&& forall|i: int| 0 <= i < self.slots.len() ==> (#[trigger] self.slots[i]).spec_is_full()
    }
}

/// The room for items of `item_id` in all the slots.
pub open spec fn total_space(slots: Seq<InventorySlot>, item_id: ItemId) -> nat {
    space_before(slots, item_id, slots.len() as int)
}

/// `item_count` could not be added in full.
#[derive(Clone, Copy, Debug, PartialEq, Eq, Structural)]
pub struct AddOneItemError {
    /// The items that found no room.
    pub excess_count: ItemCount,
}

/// `item_count` could not be taken in full.
#[derive(Clone, Copy, Debug, PartialEq, Eq, Structural)]
pub struct RemoveOneItemError {
    /// The items that the inventory lacks.
    pub excess_count: ItemCount,
}

/// A row of slots that grows up to a given number of slots.
#[derive(Debug)]
pub struct Inventory {
    slots: Vec<InventorySlot>,
    max_slot_count: usize,
    reserved_for: Option<ItemKind>,
}

impl View for Inventory {
    type V = InventoryView;

    closed spec fn view(&self) -> InventoryView {
        InventoryView {
            slots: self.slots@,
            max_slot_count: self.max_slot_count as nat,
            reserved_for: self.reserved_for,
        }
    }
}

impl Clone for Inventory {
    fn clone(&self) -> (copy: Self)
        ensures
            copy@ == self@,
    {
        Inventory {
            slots: self.slots.clone(),
            max_slot_count: self.max_slot_count,
            reserved_for: self.reserved_for,
        }
    }
}

impl Inventory {
    /// The invariant of an inventory; every function here keeps it.
    pub open spec fn wf(&self) -> bool {
        self@.wf()
    }

    /// An inventory without slots that may grow to `max_slot_count` slots and
    /// takes the items that `reserved_for` admits, or any where that is `None`.
    pub fn new(max_slot_count: usize, reserved_for: Option<ItemKind>) -> (inventory: Self)
        ensures
            inventory.wf(),
            inventory@ == (InventoryView {
                slots: Seq::empty(),
                max_slot_count: max_slot_count as nat,
                reserved_for,
            }),
    {
        Inventory { slots: Vec::new(), max_slot_count, reserved_for }
    }

    /// The slots, in order.
    pub fn slots(&self) -> (slots: Vec<InventorySlot>)
        ensures
            slots@ == self@.slots,
    {
        self.slots.clone()
    }

    /// The number of slots in use.
    pub fn len(&self) -> (len: usize)
        ensures
            len == self@.slots.len(),
    {
        self.slots.len()
    }

    /// The number of slots that the inventory may grow to.
    pub fn max_slot_count(&self) -> (max_slot_count: usize)
        ensures
            max_slot_count == self@.max_slot_count,
    {
        self.max_slot_count
    }

    /// The kind of item that the inventory is kept for, if any.
    pub fn reserved_for(&self) -> (reserved_for: Option<ItemKind>)
        ensures
            reserved_for == self@.reserved_for,
    {
        self.reserved_for
    }

    /// Whether items of `item_id` pass the filter of this inventory.
    pub fn accepts(&self, item_id: ItemId, manifest: &ItemManifest) -> (accepted: bool)
        ensures
            accepted == self@.accepts(item_id, manifest),
    {
        match self.reserved_for {
            None => true,
            Some(kind) => manifest.matches(kind, item_id),
        }
    }

    /// How many items of `item_id` the inventory holds.
    pub fn item_count(&self, item_id: ItemId) -> (count: u128)
        ensures
            count == self@.item_count(item_id),
    {
        let mut count: u128 = 0;
        let mut i: usize = 0;
        while i < self.slots.len()
            invariant
                i <= self.slots.len(),
                count == amount_before(self.slots@, item_id, i as int),
                count <= i * 0xFFFF_FFFF,
            decreases self.slots.len() - i,
        {
            let slot = self.slots[i];
            if slot.item_id == item_id {
                count += slot.count as u128;
            }
            i += 1;
        }
        count
    }

    /// How many more items of `item_id` the inventory can take.
    pub fn remaining_space_for_item(&self, item_id: ItemId, manifest: &ItemManifest) -> (space:
        u128)
        requires
            self.wf(),
        ensures
            space == self@.remaining_space(item_id, manifest),
    {
        if !self.accepts(item_id, manifest) {
            return 0;
        }
        let mut space: u128 = 0;
        let mut i: usize = 0;
        while i < self.slots.len()
            invariant
                i <= self.slots.len(),
                space == space_before(self.slots@, item_id, i as int),
                space <= i * 0xFFFF_FFFF,
            decreases self.slots.len() - i,
        {
            let slot = self.slots[i];
            if slot.item_id == item_id && slot.count <= slot.max_item_count {
                space += (slot.max_item_count - slot.count) as u128;
            }
            i += 1;
        }
        let free_slots: u128 = (self.max_slot_count - self.slots.len()) as u128;
        let stack: u128 = manifest.stack_size(item_id) as u128;
        assert(free_slots * stack <= 0xFFFF_FFFF_FFFF_FFFF * 0xFFFF_FFFF) by (nonlinear_arith)
            requires
                0 <= free_slots <= 0xFFFF_FFFF_FFFF_FFFF,
                0 <= stack <= 0xFFFF_FFFF,
        ;
        space + free_slots * stack
    }

    /// Adds all of `item_count`, or nothing where it does not fit in full.
    ///
    /// The slots for the item are filled first slot first; what is left goes
    /// to new slots of one stack each.
    pub fn add_item_all_or_nothing(&mut self, item_count: &ItemCount, manifest: &ItemManifest) -> (result:
        Result<(), AddOneItemError>)
        requires
            old(self).wf(),
        ensures
            final(self).wf(),
            result is Ok <==> old(self)@.fits(*item_count, manifest),
            result is Ok ==> final(self)@ == old(self)@.added(*item_count, manifest),
            result matches Err(error) ==> {
                &&& final(self)@ == old(self)@
                &&& error.excess_count.item_id == item_count.item_id
                &&& error.excess_count.count == item_count.count - old(self)@.remaining_space(
                    item_count.item_id,
                    manifest,
                )
            },
    {
        let item_id = item_count.item_id;
        let count = item_count.count;
        let space = self.remaining_space_for_item(item_id, manifest);
        if !self.accepts(item_id, manifest) || count as u128 > space {
            let excess = (count as u128 - space) as u32;
            return Err(AddOneItemError { excess_count: ItemCount { item_id, count: excess } });
        }
        let stack = manifest.stack_size(item_id);
        let ghost before = self.slots@;
        let mut left: u32 = count;
        let mut i: usize = 0;
        while i < self.slots.len()
            invariant
                i <= self.slots.len(),
                self.slots@.len() == before.len(),
                self.max_slot_count == old(self).max_slot_count,
                self.reserved_for == old(self).reserved_for,
                before.len() <= self.max_slot_count,
                forall|j: int| 0 <= j < before.len() ==> (#[trigger] before[j]).wf(),
                left == minus(count as int, space_before(before, item_id, i as int) as int),
                forall|j: int|
                    0 <= j < i ==> #[trigger] self.slots@[j] == fill_slot(
                        before[j],
                        item_id,
                        minus(count as int, space_before(before, item_id, j) as int),
                    ),
                forall|j: int| i <= j < before.len() ==> #[trigger] self.slots@[j] == before[j],
            decreases self.slots.len() - i,
        {
            let slot = self.slots[i];
            if slot.item_id == item_id {
                let room = slot.max_item_count - slot.count;
                let taken = if left < room {
                    left
                } else {
                    room
                };
                self.slots.set(
                    i,
                    InventorySlot {
                        item_id: slot.item_id,
                        count: slot.count + taken,
                        max_item_count: slot.max_item_count,
                    },
                );
                left -= taken;
            }
            i += 1;
        }
        assert(self.slots@ =~= filled(before, item_id, count as nat));
        let ghost left_over = left as nat;
        let ghost goal = filled(before, item_id, count as nat) + fresh(
            item_id,
            left_over,
            stack as nat,
        );
        assert(self.slots@ + fresh(item_id, left_over, stack as nat) == goal);
        proof {
            lemma_filled_wf(before, item_id, count as nat);
        }
        while left > 0
            invariant
                self.max_slot_count == old(self).max_slot_count,
                self.reserved_for == old(self).reserved_for,
                self.slots@.len() <= self.max_slot_count,
                forall|j: int| 0 <= j < self.slots@.len() ==> (#[trigger] self.slots@[j]).wf(),
                left <= (self.max_slot_count - self.slots@.len()) * stack,
                self.slots@ + fresh(item_id, left as nat, stack as nat) == goal,
            decreases left,
        {
            let ghost free = self.max_slot_count - self.slots@.len();
            assert(stack > 0 && free >= 1) by (nonlinear_arith)
                requires
                    0 < left <= free * stack,
                    free >= 0,
                    stack >= 0,
            ;
            let taken = if left < stack {
                left
            } else {
                stack
            };
            let ghost rest = fresh(item_id, (left - taken) as nat, stack as nat);
            let ghost slots_before = self.slots@;
            let slot = InventorySlot { item_id, count: taken, max_item_count: stack };
            assert(fresh(item_id, left as nat, stack as nat) == seq![slot] + rest);
            self.slots.push(slot);
            assert(self.slots@ + rest =~= slots_before + (seq![slot] + rest));
            assert(left - taken <= (free - 1) * stack) by (nonlinear_arith)
                requires
                    0 < left <= free * stack,
                    free >= 1,
                    stack > 0,
                    taken == if left < stack {
                        left
                    } else {
                        stack
                    },
            ;
            left -= taken;
        }
        assert(self.slots@ =~= goal);
        Ok(())
    }

    /// Takes all of `item_count`, or nothing where the inventory holds less.
    ///
    /// The items leave the last slots first. A slot that is emptied stays.
    pub fn try_remove_item(&mut self, item_count: &ItemCount) -> (result: Result<
        (),
        RemoveOneItemError,
    >)
        requires
            old(self).wf(),
        ensures
            final(self).wf(),
            result is Ok <==> old(self)@.has(*item_count),
            result is Ok ==> final(self)@ == old(self)@.removed(*item_count),
            result matches Err(error) ==> {
                &&& final(self)@ == old(self)@
                &&& error.excess_count.item_id == item_count.item_id
                &&& error.excess_count.count == item_count.count - old(self)@.item_count(
                    item_count.item_id,
                )
            },
    {
        let item_id = item_count.item_id;
        let count = item_count.count;
        let held = self.item_count(item_id);
        if count as u128 > held {
            let excess = (count as u128 - held) as u32;
            return Err(RemoveOneItemError { excess_count: ItemCount { item_id, count: excess } });
        }
        let ghost before = self.slots@;
        let mut left: u32 = count;
        let mut i: usize = self.slots.len();
        while i > 0
            invariant
                i <= self.slots.len(),
                self.slots@.len() == before.len(),
                self.max_slot_count == old(self).max_slot_count,
                self.reserved_for == old(self).reserved_for,
                before.len() <= self.max_slot_count,
                forall|j: int| 0 <= j < before.len() ==> (#[trigger] before[j]).wf(),
                left == minus(count as int, amount_from(before, item_id, i as int)),
                forall|j: int|
                    i <= j < before.len() ==> #[trigger] self.slots@[j] == drain_slot(
                        before[j],
                        item_id,
                        minus(count as int, amount_from(before, item_id, j + 1)),
                    ),
                forall|j: int| 0 <= j < i ==> #[trigger] self.slots@[j] == before[j],
            decreases i,
        {
            i -= 1;
            let slot = self.slots[i];
            if slot.item_id == item_id {
                let taken = if left < slot.count {
                    left
                } else {
                    slot.count
                };
                self.slots.set(
                    i,
                    InventorySlot {
                        item_id: slot.item_id,
                        count: slot.count - taken,
                        max_item_count: slot.max_item_count,
                    },
                );
                left -= taken;
            }
        }
        assert(self.slots@ =~= drained(before, item_id, count as nat));
        Ok(())
    }

    /// Drops the slots that hold nothing, so that they can be used anew.
    /// What the inventory holds and how far it may grow stay as they were.
    pub fn clear_empty_slots(&mut self)
        requires
            old(self).wf(),
        ensures
            final(self).wf(),
            final(self)@ == old(self)@.cleared(),
    {
        let mut kept: Vec<InventorySlot> = Vec::new();
        let mut i: usize = 0;
        while i < self.slots.len()
            invariant
                i <= self.slots.len(),
                self.wf(),
                kept@ == self.slots@.take(i as int).filter(holds_items()),
                kept@.len() <= i,
                forall|j: int| 0 <= j < kept@.len() ==> (#[trigger] kept@[j]).wf(),
            decreases self.slots.len() - i,
        {
            let slot = self.slots[i];
            proof {
                assert(self.slots@.take(i + 1) =~= self.slots@.take(i as int).push(slot));
                self.slots@.take(i as int).lemma_filter_push(slot, holds_items());
            }
            if slot.count > 0 {
                kept.push(slot);
            }
            i += 1;
        }
        assert(self.slots@.take(self.slots@.len() as int) =~= self.slots@);
        self.slots = kept;
    }

    /// Whether every slot is in use and full.
    pub fn is_full(&self) -> (full: bool)
        ensures
            full == self@.is_full(),
    {
        if self.slots.len() != self.max_slot_count {
            return false;
        }
        let mut i: usize = 0;
        while i < self.slots.len()
            invariant
                i <= self.slots.len(),
                self.slots.len() == self.max_slot_count,
                forall|j: int| 0 <= j < i ==> (#[trigger] self.slots@[j]).spec_is_full(),
            decreases self.slots.len() - i,
        {
            if !self.slots[i].is_full() {
                return false;
            }
            i += 1;
        }
        true
    }

    /// Whether the inventory holds no item at all.
    pub fn is_empty(&self) -> (empty: bool)
        ensures
            empty == (forall|i: int| 0 <= i < self@.slots.len() ==> (#[trigger] self@.slots[i]).count == 0),
    {
        let mut i: usize = 0;
        while i < self.slots.len()
            invariant
                i <= self.slots.len(),
                forall|j: int| 0 <= j < i ==> (#[trigger] self.slots@[j]).count == 0,
            decreases self.slots.len() - i,
        {
            if self.slots[i].count != 0 {
                assert(self@.slots[i as int].count != 0);
                return false;
            }
            i += 1;
        }
        true
    }
}

/// Filling keeps every slot within its capacity, and keeps the number of slots.
pub proof fn lemma_filled_wf(slots: Seq<InventorySlot>, item_id: ItemId, count: nat)
    requires
        forall|j: int| 0 <= j < slots.len() ==> (#[trigger] slots[j]).wf(),
    ensures
        filled(slots, item_id, count).len() == slots.len(),
        forall|j: int|
            0 <= j < slots.len() ==> (#[trigger] filled(slots, item_id, count)[j]).wf(),
{
    assert forall|j: int| 0 <= j < slots.len() implies (#[trigger] filled(
        slots,
        item_id,
        count,
    )[j]).wf() by {
        assert(slots[j].wf());
    }
}

} // verus!
