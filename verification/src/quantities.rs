//! How much of each item a row of slots holds, and how adding, taking and
//! clearing change that.

use crate::inventory::{
    amount_before, amount_from, drained, filled, fresh, holds_items, least, minus, space_before,
    total, total_space, InventorySlot, InventoryView,
};
use crate::items::{ItemCount, ItemId, ItemManifest};
use vstd::prelude::*;

verus! {

/// What the first `n` slots hold depends on those slots alone.
pub proof fn lemma_amount_before_agrees(
    a: Seq<InventorySlot>,
    b: Seq<InventorySlot>,
    item_id: ItemId,
    n: int,
)
    requires
        0 <= n <= a.len(),
        n <= b.len(),
        forall|j: int| 0 <= j < n ==> a[j].amount_of(item_id) == b[j].amount_of(item_id),
    ensures
        amount_before(a, item_id, n) == amount_before(b, item_id, n),
    decreases n,
{
    if n > 0 {
        lemma_amount_before_agrees(a, b, item_id, n - 1);
    }
}

/// What the first `n` slots hold grows with `n`, up to the whole.
pub proof fn lemma_amount_before_grows(slots: Seq<InventorySlot>, item_id: ItemId, m: int, n: int)
    requires
        0 <= m <= n,
    ensures
        amount_before(slots, item_id, m) <= amount_before(slots, item_id, n),
    decreases n - m,
{
    if m < n {
        lemma_amount_before_grows(slots, item_id, m, n - 1);
    }
}

/// Two rows laid end to end hold what the first holds and what the second holds.
pub proof fn lemma_amount_of_joined(
    a: Seq<InventorySlot>,
    b: Seq<InventorySlot>,
    item_id: ItemId,
    k: int,
)
    requires
        0 <= k <= b.len(),
    ensures
        amount_before(a + b, item_id, a.len() + k) == total(a, item_id) + amount_before(
            b,
            item_id,
            k,
        ),
    decreases k,
{
    if k == 0 {
        lemma_amount_before_agrees(a + b, a, item_id, a.len() as int);
    } else {
        lemma_amount_of_joined(a, b, item_id, k - 1);
        assert((a + b)[a.len() + k - 1] == b[k - 1]);
    }
}

/// Two rows laid end to end hold, of each item, the sum of what each holds.
pub proof fn lemma_total_of_joined(a: Seq<InventorySlot>, b: Seq<InventorySlot>, item_id: ItemId)
    ensures
        total(a + b, item_id) == total(a, item_id) + total(b, item_id),
{
    lemma_amount_of_joined(a, b, item_id, b.len() as int);
}

/// A row with one more slot holds what the row held and what the slot holds.
pub proof fn lemma_total_of_pushed(slots: Seq<InventorySlot>, slot: InventorySlot, item_id: ItemId)
    ensures
        total(slots.push(slot), item_id) == total(slots, item_id) + slot.amount_of(item_id),
{
    lemma_amount_before_agrees(slots.push(slot), slots, item_id, slots.len() as int);
}

/// After filling, the first `n` slots hold what they held, and of the item
/// that was added as much more as they had room for, up to the count.
pub proof fn lemma_filled_amount(
    slots: Seq<InventorySlot>,
    item_id: ItemId,
    count: nat,
    other: ItemId,
    n: int,
)
    requires
        forall|j: int| 0 <= j < slots.len() ==> (#[trigger] slots[j]).wf(),
        0 <= n <= slots.len(),
    ensures
        amount_before(filled(slots, item_id, count), other, n) == amount_before(slots, other, n)
            + if other == item_id {
            least(count as int, space_before(slots, item_id, n) as int)
        } else {
            0
        },
    decreases n,
{
    if n > 0 {
        lemma_filled_amount(slots, item_id, count, other, n - 1);
        assert(slots[n - 1].wf());
    }
}

/// New slots hold exactly the items they were made for, each within its stack.
pub proof fn lemma_fresh_total(item_id: ItemId, left: nat, stack: nat, other: ItemId)
    requires
        0 < stack <= u32::MAX,
    ensures
        total(fresh(item_id, left, stack), other) == if other == item_id {
            left
        } else {
            0
        },
        forall|j: int|
            0 <= j < fresh(item_id, left, stack).len() ==> {
                &&& (#[trigger] fresh(item_id, left, stack)[j]).wf()
                &&& fresh(item_id, left, stack)[j].item_id == item_id
                &&& fresh(item_id, left, stack)[j].max_item_count == stack
            },
    decreases left,
{
    if left > 0 {
        let taken = least(left as int, stack as int);
        let first = InventorySlot { item_id, count: taken as u32, max_item_count: stack as u32 };
        let rest = fresh(item_id, (left - taken) as nat, stack);
        lemma_fresh_total(item_id, (left - taken) as nat, stack, other);
        lemma_total_of_joined(seq![first], rest, other);
        assert(amount_before(seq![first], other, 0) == 0);
        assert(total(seq![first], other) == first.amount_of(other));
        assert forall|j: int| 0 <= j < fresh(item_id, left, stack).len() implies {
            &&& (#[trigger] fresh(item_id, left, stack)[j]).wf()
            &&& fresh(item_id, left, stack)[j].item_id == item_id
            &&& fresh(item_id, left, stack)[j].max_item_count == stack
        } by {
            if j > 0 {
                assert(fresh(item_id, left, stack)[j] == rest[j - 1]);
            }
        }
    }
}

/// No more new slots are made than the items need.
pub proof fn lemma_fresh_len(item_id: ItemId, left: nat, stack: nat, free: int)
    requires
        0 < stack,
        0 <= free,
        left <= free * stack,
    ensures
        fresh(item_id, left, stack).len() <= free,
    decreases left,
{
    if left > 0 {
        let taken = least(left as int, stack as int);
        assert(free >= 1 && left - taken <= (free - 1) * stack) by (nonlinear_arith)
            requires
                0 < left <= free * stack,
                0 < stack,
                0 <= free,
                taken == if left <= stack {
                    left as int
                } else {
                    stack as int
                },
        ;
        lemma_fresh_len(item_id, (left - taken) as nat, stack, free - 1);
    }
}

/// Adding leaves a valid inventory that holds the added count more of the
/// item, and of every other item what it held.
pub proof fn lemma_added_item_count(
    inventory: InventoryView,
    item_count: ItemCount,
    manifest: &ItemManifest,
    other: ItemId,
)
    requires
        inventory.wf(),
        inventory.fits(item_count, manifest),
    ensures
        inventory.added(item_count, manifest).wf(),
        inventory.added(item_count, manifest).item_count(other) == inventory.item_count(other)
            + if other == item_count.item_id {
            item_count.count as int
        } else {
            0
        },
{
    let item_id = item_count.item_id;
    let count = item_count.count as nat;
    let stack = manifest.spec_stack_size(item_id);
    let left = minus(count as int, total_space(inventory.slots, item_id) as int);
    let old_part = filled(inventory.slots, item_id, count);
    let new_part = fresh(item_id, left, stack);
    let free = inventory.max_slot_count - inventory.slots.len();
    lemma_filled_amount(inventory.slots, item_id, count, other, inventory.slots.len() as int);
    lemma_total_of_joined(old_part, new_part, other);
    crate::inventory::lemma_filled_wf(inventory.slots, item_id, count);
    if left > 0 {
        assert(stack > 0) by (nonlinear_arith)
            requires
                0 < left <= free * stack,
        ;
        lemma_fresh_total(item_id, left, stack, other);
        lemma_fresh_len(item_id, left, stack, free);
    }
    let after = inventory.added(item_count, manifest);
    assert forall|i: int| 0 <= i < after.slots.len() implies (#[trigger] after.slots[i]).wf() by {
        if i < old_part.len() {
            assert(after.slots[i] == old_part[i]);
        } else {
            assert(after.slots[i] == new_part[i - old_part.len()]);
        }
    }
}

/// Adding changes no slot of another item, keeps every slot in its place, and
/// makes new slots for the added item alone.
pub proof fn lemma_added_slots(
    inventory: InventoryView,
    item_count: ItemCount,
    manifest: &ItemManifest,
)
    requires
        inventory.wf(),
        inventory.fits(item_count, manifest),
    ensures
        inventory.added(item_count, manifest).slots.len() >= inventory.slots.len(),
        forall|i: int|
            0 <= i < inventory.slots.len() ==> {
                let before = #[trigger] inventory.slots[i];
                let after = inventory.added(item_count, manifest).slots[i];
                &&& after.item_id == before.item_id
                &&& after.max_item_count == before.max_item_count
                &&& after.count >= before.count
                &&& before.item_id != item_count.item_id ==> after == before
            },
        forall|i: int|
            inventory.slots.len() <= i < inventory.added(item_count, manifest).slots.len()
                ==> (#[trigger] inventory.added(item_count, manifest).slots[i]).item_id
                == item_count.item_id,
{
    let item_id = item_count.item_id;
    let count = item_count.count as nat;
    let stack = manifest.spec_stack_size(item_id);
    let left = minus(count as int, total_space(inventory.slots, item_id) as int);
    let old_part = filled(inventory.slots, item_id, count);
    let new_part = fresh(item_id, left, stack);
    let after = inventory.added(item_count, manifest);
    if stack > 0 {
        lemma_fresh_total(item_id, left, stack, item_id);
    }
    assert forall|i: int| 0 <= i < inventory.slots.len() implies {
        let before = #[trigger] inventory.slots[i];
        let after = inventory.added(item_count, manifest).slots[i];
        &&& after.item_id == before.item_id
        &&& after.max_item_count == before.max_item_count
        &&& after.count >= before.count
        &&& before.item_id != item_count.item_id ==> after == before
    } by {
        assert(after.slots[i] == old_part[i]);
        assert(inventory.slots[i].wf());
    }
    assert forall|i: int| inventory.slots.len() <= i < after.slots.len() implies (
    #[trigger] after.slots[i]).item_id == item_id by {
        assert(after.slots[i] == new_part[i - old_part.len()]);
    }
}

/// After draining, the first `n` slots hold what they held, less what the
/// slots behind them could not give.
pub proof fn lemma_drained_amount(
    slots: Seq<InventorySlot>,
    item_id: ItemId,
    count: nat,
    other: ItemId,
    n: int,
)
    requires
        0 <= n <= slots.len(),
        count <= total(slots, item_id),
    ensures
        amount_before(drained(slots, item_id, count), other, n) == amount_before(slots, other, n)
            - if other == item_id {
            minus(count as int, amount_from(slots, item_id, n)) as int
        } else {
            0
        },
    decreases n,
{
    if n > 0 {
        lemma_drained_amount(slots, item_id, count, other, n - 1);
        lemma_amount_before_grows(slots, item_id, n, slots.len() as int);
    }
}

/// Taking leaves a valid inventory that holds the taken count less of the
/// item, and of every other item what it held.
pub proof fn lemma_removed_item_count(inventory: InventoryView, item_count: ItemCount, other: ItemId)
    requires
        inventory.wf(),
        inventory.has(item_count),
    ensures
        inventory.removed(item_count).wf(),
        inventory.removed(item_count).item_count(other) == inventory.item_count(other)
            - if other == item_count.item_id {
            item_count.count as int
        } else {
            0
        },
{
    lemma_drained_amount(
        inventory.slots,
        item_count.item_id,
        item_count.count as nat,
        other,
        inventory.slots.len() as int,
    );
    let after = inventory.removed(item_count);
    assert forall|i: int| 0 <= i < after.slots.len() implies (#[trigger] after.slots[i]).wf() by {
        assert(inventory.slots[i].wf());
    }
}

/// Clearing the empty slots leaves a valid inventory that holds what it held.
pub proof fn lemma_cleared_item_count(inventory: InventoryView, other: ItemId)
    requires
        inventory.wf(),
    ensures
        inventory.cleared().wf(),
        inventory.cleared().item_count(other) == inventory.item_count(other),
{
    lemma_kept_slots(inventory.slots, other);
}

/// The slots that hold something hold all that the row holds.
pub proof fn lemma_kept_slots(slots: Seq<InventorySlot>, other: ItemId)
    requires
        forall|j: int| 0 <= j < slots.len() ==> (#[trigger] slots[j]).wf(),
    ensures
        slots.filter(holds_items()).len() <= slots.len(),
        total(slots.filter(holds_items()), other) == total(slots, other),
        forall|j: int|
            0 <= j < slots.filter(holds_items()).len() ==> {
                &&& (#[trigger] slots.filter(holds_items())[j]).wf()
                &&& slots.filter(holds_items())[j].count > 0
            },
    decreases slots.len(),
{
    if slots.len() == 0 {
        reveal(Seq::filter);
    } else {
        let front = slots.drop_last();
        let last = slots.last();
        assert(slots =~= front.push(last));
        lemma_kept_slots(front, other);
        front.lemma_filter_push(last, holds_items());
        lemma_total_of_pushed(front, last, other);
        if last.count > 0 {
            lemma_total_of_pushed(front.filter(holds_items()), last, other);
        }
    }
}

/// The room in the first `n` slots depends on those slots alone.
pub proof fn lemma_space_before_agrees(
    a: Seq<InventorySlot>,
    b: Seq<InventorySlot>,
    item_id: ItemId,
    n: int,
)
    requires
        0 <= n <= a.len(),
        n <= b.len(),
        forall|j: int| 0 <= j < n ==> a[j].space_for(item_id) == b[j].space_for(item_id),
    ensures
        space_before(a, item_id, n) == space_before(b, item_id, n),
    decreases n,
{
    if n > 0 {
        lemma_space_before_agrees(a, b, item_id, n - 1);
    }
}

/// Two rows laid end to end have the room of the first and the room of the second.
pub proof fn lemma_space_of_joined(
    a: Seq<InventorySlot>,
    b: Seq<InventorySlot>,
    item_id: ItemId,
    k: int,
)
    requires
        0 <= k <= b.len(),
    ensures
        space_before(a + b, item_id, a.len() + k) == total_space(a, item_id) + space_before(
            b,
            item_id,
            k,
        ),
    decreases k,
{
    if k == 0 {
        lemma_space_before_agrees(a + b, a, item_id, a.len() as int);
    } else {
        lemma_space_of_joined(a, b, item_id, k - 1);
        assert((a + b)[a.len() + k - 1] == b[k - 1]);
    }
}

/// After filling, the first `n` slots have the room they had, less what went
/// into them.
pub proof fn lemma_filled_space(
    slots: Seq<InventorySlot>,
    item_id: ItemId,
    count: nat,
    other: ItemId,
    n: int,
)
    requires
        forall|j: int| 0 <= j < slots.len() ==> (#[trigger] slots[j]).wf(),
        0 <= n <= slots.len(),
    ensures
        space_before(filled(slots, item_id, count), other, n) == space_before(slots, other, n)
            - if other == item_id {
            least(count as int, space_before(slots, item_id, n) as int)
        } else {
            0
        },
    decreases n,
{
    if n > 0 {
        lemma_filled_space(slots, item_id, count, other, n - 1);
        assert(slots[n - 1].wf());
    }
}

/// New slots have room for what is missing to fill the last of them, and
/// none for another item.
pub proof fn lemma_fresh_space(item_id: ItemId, left: nat, stack: nat, other: ItemId)
    requires
        0 < stack <= u32::MAX,
    ensures
        total_space(fresh(item_id, left, stack), other) == if other == item_id {
            fresh(item_id, left, stack).len() * stack - left
        } else {
            0
        },
    decreases left,
{
    if left > 0 {
        let taken = least(left as int, stack as int);
        let first = InventorySlot { item_id, count: taken as u32, max_item_count: stack as u32 };
        let rest = fresh(item_id, (left - taken) as nat, stack);
        lemma_fresh_space(item_id, (left - taken) as nat, stack, other);
        lemma_space_of_joined(seq![first], rest, other, rest.len() as int);
        assert(space_before(seq![first], other, 0) == 0);
        assert(total_space(seq![first], other) == first.space_for(other));
        assert((rest.len() + 1) * stack == rest.len() * stack + stack) by (nonlinear_arith);
    } else {
        assert(0 * stack == 0) by (nonlinear_arith);
    }
}

/// Adding uses up as much room for the item as was added, and makes no room
/// for another item.
pub proof fn lemma_added_remaining_space(
    inventory: InventoryView,
    item_count: ItemCount,
    manifest: &ItemManifest,
    other: ItemId,
)
    requires
        inventory.wf(),
        inventory.fits(item_count, manifest),
    ensures
        inventory.added(item_count, manifest).remaining_space(other, manifest) + if other
            == item_count.item_id {
            item_count.count as int
        } else {
            0
        } <= inventory.remaining_space(other, manifest),
        inventory.added(item_count, manifest).remaining_space(item_count.item_id, manifest)
            + item_count.count == inventory.remaining_space(item_count.item_id, manifest),
{
    let item_id = item_count.item_id;
    let count = item_count.count as nat;
    let stack = manifest.spec_stack_size(item_id);
    let left = minus(count as int, total_space(inventory.slots, item_id) as int);
    let old_part = filled(inventory.slots, item_id, count);
    let new_part = fresh(item_id, left, stack);
    let free = inventory.max_slot_count - inventory.slots.len();
    let after = inventory.added(item_count, manifest);
    lemma_added_item_count(inventory, item_count, manifest, other);
    crate::inventory::lemma_filled_wf(inventory.slots, item_id, count);
    lemma_filled_space(inventory.slots, item_id, count, other, inventory.slots.len() as int);
    lemma_filled_space(inventory.slots, item_id, count, item_id, inventory.slots.len() as int);
    lemma_space_of_joined(old_part, new_part, other, new_part.len() as int);
    lemma_space_of_joined(old_part, new_part, item_id, new_part.len() as int);
    if left > 0 {
        assert(stack > 0) by (nonlinear_arith)
            requires
                0 < left <= free * stack,
        ;
        lemma_fresh_space(item_id, left, stack, other);
        lemma_fresh_space(item_id, left, stack, item_id);
        lemma_fresh_len(item_id, left, stack, free);
    } else {
        assert(new_part.len() == 0);
        assert(space_before(new_part, other, 0) == 0);
        assert(space_before(new_part, item_id, 0) == 0);
    }
    let made = new_part.len() as int;
    let free_after = after.max_slot_count - after.slots.len();
    assert(free_after == free - made);
    assert(0 <= made <= free) by {
        if left > 0 {
            lemma_fresh_len(item_id, left, stack, free);
        }
    }
    assert((free - made) * stack + made * stack == free * stack) by (nonlinear_arith);
    let other_stack = manifest.spec_stack_size(other);
    assert((free - made) * other_stack <= free * other_stack) by (nonlinear_arith)
        requires
            0 <= made <= free,
            0 <= other_stack,
    ;
}

} // verus!
