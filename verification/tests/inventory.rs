use emergence_lib::inventories::{InputInventory, OutputInventory, RecipeInput};
use emergence_lib::inventory::{Inventory, InventorySlot};
use emergence_lib::items::{ItemCount, ItemData, ItemId, ItemKind, ItemManifest, ItemTag};

fn apple() -> ItemId {
    ItemId { value: 1 }
}

fn berry() -> ItemId {
    ItemId { value: 2 }
}

fn fruit() -> ItemTag {
    ItemTag { value: 7 }
}

fn manifest() -> ItemManifest {
    let mut manifest = ItemManifest::new();
    manifest.insert(apple(), ItemData { stack_size: 10, tags: vec![fruit()] });
    manifest.insert(berry(), ItemData { stack_size: 4, tags: vec![] });
    manifest
}

fn slot(item_id: ItemId, count: u32, max_item_count: u32) -> InventorySlot {
    InventorySlot { item_id, count, max_item_count }
}

#[test]
fn manifest_answers_for_known_and_unknown_items() {
    let manifest = manifest();
    assert!(manifest.contains(apple()));
    assert!(!manifest.contains(ItemId { value: 99 }));
    assert_eq!(manifest.stack_size(apple()), 10);
    assert_eq!(manifest.stack_size(berry()), 4);
    assert_eq!(manifest.stack_size(ItemId { value: 99 }), 0);
    assert!(manifest.has_tag(apple(), fruit()));
    assert!(!manifest.has_tag(berry(), fruit()));
    assert!(manifest.matches(ItemKind::Single(apple()), apple()));
    assert!(!manifest.matches(ItemKind::Single(apple()), berry()));
    assert!(manifest.matches(ItemKind::Tag(fruit()), apple()));
    assert!(!manifest.matches(ItemKind::Tag(fruit()), berry()));
}

#[test]
fn item_count_builders() {
    assert_eq!(ItemCount::new(apple(), 3), ItemCount { item_id: apple(), count: 3 });
    assert_eq!(ItemCount::one(berry()), ItemCount { item_id: berry(), count: 1 });
}

#[test]
fn slot_reports_what_it_holds() {
    let empty = InventorySlot::new(apple(), 10);
    assert_eq!(empty, slot(apple(), 0, 10));
    assert!(empty.is_empty());
    assert!(!empty.is_full());
    let full = slot(apple(), 10, 10);
    assert!(full.is_full());
    assert!(!full.is_empty());
    assert_eq!(full.item_count(), ItemCount::new(apple(), 10));
    assert_eq!(full.item_id(), apple());
    assert_eq!(full.count(), 10);
    assert_eq!(full.max_item_count(), 10);
}

#[test]
fn add_fills_slots_in_order_and_opens_new_ones() {
    let manifest = manifest();
    let mut inventory = Inventory::new(3, None);
    assert!(inventory.add_item_all_or_nothing(&ItemCount::new(apple(), 4), &manifest).is_ok());
    assert_eq!(inventory.slots(), vec![slot(apple(), 4, 10)]);
    assert!(inventory.add_item_all_or_nothing(&ItemCount::new(berry(), 3), &manifest).is_ok());
    assert_eq!(inventory.slots(), vec![slot(apple(), 4, 10), slot(berry(), 3, 4)]);
    // 6 go to the first slot, 5 to a new one.
    assert!(inventory.add_item_all_or_nothing(&ItemCount::new(apple(), 11), &manifest).is_ok());
    assert_eq!(
        inventory.slots(),
        vec![slot(apple(), 10, 10), slot(berry(), 3, 4), slot(apple(), 5, 10)]
    );
    assert_eq!(inventory.item_count(apple()), 15);
    assert_eq!(inventory.item_count(berry()), 3);
    assert_eq!(inventory.len(), 3);
}

#[test]
fn add_that_does_not_fit_changes_nothing() {
    let manifest = manifest();
    let mut inventory = Inventory::new(2, None);
    inventory.add_item_all_or_nothing(&ItemCount::new(apple(), 14), &manifest).unwrap();
    let before = inventory.slots();
    assert_eq!(before, vec![slot(apple(), 10, 10), slot(apple(), 4, 10)]);
    // Room for 6 apples only, and for no berry at all.
    let error = inventory.add_item_all_or_nothing(&ItemCount::new(apple(), 7), &manifest).unwrap_err();
    assert_eq!(error.excess_count, ItemCount::new(apple(), 1));
    assert_eq!(inventory.slots(), before);
    let error = inventory.add_item_all_or_nothing(&ItemCount::new(berry(), 1), &manifest).unwrap_err();
    assert_eq!(error.excess_count, ItemCount::new(berry(), 1));
    assert_eq!(inventory.slots(), before);
    assert_eq!(inventory.item_count(apple()), 14);
    // What fits exactly is taken.
    assert!(inventory.add_item_all_or_nothing(&ItemCount::new(apple(), 6), &manifest).is_ok());
    assert_eq!(inventory.item_count(apple()), 20);
    assert!(inventory.is_full());
}

#[test]
fn remaining_space_counts_open_room_and_unused_slots() {
    let manifest = manifest();
    let mut inventory = Inventory::new(3, None);
    inventory.add_item_all_or_nothing(&ItemCount::new(apple(), 4), &manifest).unwrap();
    assert_eq!(inventory.remaining_space_for_item(apple(), &manifest), 6 + 2 * 10);
    assert_eq!(inventory.remaining_space_for_item(berry(), &manifest), 2 * 4);
    assert_eq!(inventory.remaining_space_for_item(ItemId { value: 99 }, &manifest), 0);
}

#[test]
fn reserved_inventory_refuses_other_items() {
    let manifest = manifest();
    let mut inventory = Inventory::new(2, Some(ItemKind::Single(apple())));
    assert_eq!(inventory.reserved_for(), Some(ItemKind::Single(apple())));
    assert_eq!(inventory.max_slot_count(), 2);
    assert!(inventory.accepts(apple(), &manifest));
    assert!(!inventory.accepts(berry(), &manifest));
    assert_eq!(inventory.remaining_space_for_item(berry(), &manifest), 0);
    assert!(inventory.add_item_all_or_nothing(&ItemCount::new(berry(), 1), &manifest).is_err());
    assert!(inventory.add_item_all_or_nothing(&ItemCount::new(apple(), 1), &manifest).is_ok());

    let mut by_tag = Inventory::new(2, Some(ItemKind::Tag(fruit())));
    assert!(by_tag.add_item_all_or_nothing(&ItemCount::new(apple(), 1), &manifest).is_ok());
    assert!(by_tag.add_item_all_or_nothing(&ItemCount::new(berry(), 1), &manifest).is_err());
    assert_eq!(by_tag.slots(), vec![slot(apple(), 1, 10)]);
}

#[test]
fn remove_takes_from_the_last_slots_and_keeps_empty_ones() {
    let manifest = manifest();
    let mut inventory = Inventory::new(4, None);
    inventory.add_item_all_or_nothing(&ItemCount::new(apple(), 14), &manifest).unwrap();
    inventory.add_item_all_or_nothing(&ItemCount::new(berry(), 2), &manifest).unwrap();
    assert!(inventory.try_remove_item(&ItemCount::new(apple(), 6)).is_ok());
    assert_eq!(
        inventory.slots(),
        vec![slot(apple(), 8, 10), slot(apple(), 0, 10), slot(berry(), 2, 4)]
    );
    assert_eq!(inventory.item_count(apple()), 8);
    assert_eq!(inventory.item_count(berry()), 2);
}

#[test]
fn remove_of_more_than_is_held_changes_nothing() {
    let manifest = manifest();
    let mut inventory = Inventory::new(4, None);
    inventory.add_item_all_or_nothing(&ItemCount::new(apple(), 3), &manifest).unwrap();
    let before = inventory.slots();
    let error = inventory.try_remove_item(&ItemCount::new(apple(), 5)).unwrap_err();
    assert_eq!(error.excess_count, ItemCount::new(apple(), 2));
    assert_eq!(inventory.slots(), before);
    let error = inventory.try_remove_item(&ItemCount::new(berry(), 1)).unwrap_err();
    assert_eq!(error.excess_count, ItemCount::new(berry(), 1));
    assert_eq!(inventory.slots(), before);
}

#[test]
fn clearing_drops_the_empty_slots_only() {
    let manifest = manifest();
    let mut inventory = Inventory::new(2, None);
    inventory.add_item_all_or_nothing(&ItemCount::new(apple(), 14), &manifest).unwrap();
    inventory.try_remove_item(&ItemCount::new(apple(), 4)).unwrap();
    assert_eq!(inventory.slots(), vec![slot(apple(), 10, 10), slot(apple(), 0, 10)]);
    // The empty slot is for apples: berries find no room.
    assert!(inventory.add_item_all_or_nothing(&ItemCount::new(berry(), 1), &manifest).is_err());
    inventory.clear_empty_slots();
    assert_eq!(inventory.slots(), vec![slot(apple(), 10, 10)]);
    assert_eq!(inventory.max_slot_count(), 2);
    assert_eq!(inventory.item_count(apple()), 10);
    assert!(inventory.add_item_all_or_nothing(&ItemCount::new(berry(), 1), &manifest).is_ok());
    assert_eq!(inventory.slots(), vec![slot(apple(), 10, 10), slot(berry(), 1, 4)]);
}

#[test]
fn full_and_empty() {
    let manifest = manifest();
    let mut inventory = Inventory::new(1, None);
    assert!(inventory.is_empty());
    assert!(!inventory.is_full());
    inventory.add_item_all_or_nothing(&ItemCount::new(berry(), 3), &manifest).unwrap();
    assert!(!inventory.is_empty());
    assert!(!inventory.is_full());
    inventory.add_item_all_or_nothing(&ItemCount::new(berry(), 1), &manifest).unwrap();
    assert!(inventory.is_full());
    inventory.try_remove_item(&ItemCount::new(berry(), 4)).unwrap();
    assert!(inventory.is_empty());
    assert!(!inventory.is_full());
    let none = Inventory::new(0, None);
    assert!(none.is_full());
    assert!(none.is_empty());
}

#[test]
fn a_copy_does_not_change_with_its_source() {
    let manifest = manifest();
    let mut inventory = Inventory::new(2, None);
    inventory.add_item_all_or_nothing(&ItemCount::new(apple(), 3), &manifest).unwrap();
    let copy = inventory.clone();
    inventory.try_remove_item(&ItemCount::new(apple(), 3)).unwrap();
    assert_eq!(copy.slots(), vec![slot(apple(), 3, 10)]);
    assert_eq!(inventory.slots(), vec![slot(apple(), 0, 10)]);
}

#[test]
fn tagged_input_inventory_goes_by_its_tag() {
    let manifest = manifest();
    let mut input = InputInventory::Tagged { tag: fruit(), inventory: Inventory::new(2, None) };
    let error = input.add_item_all_or_nothing(&ItemCount::new(berry(), 3), &manifest).unwrap_err();
    assert_eq!(error.excess_count, ItemCount::new(berry(), 3));
    assert!(input.slots().is_empty());
    let error = input.add_item_all_or_nothing(&ItemCount::new(apple(), 23), &manifest).unwrap_err();
    assert_eq!(error.excess_count, ItemCount::new(apple(), 3));
    assert!(input.slots().is_empty());
    assert!(input.add_item_all_or_nothing(&ItemCount::new(apple(), 12), &manifest).is_ok());
    assert_eq!(input.slots(), vec![slot(apple(), 10, 10), slot(apple(), 2, 10)]);
    assert!(!input.is_full());
    assert_eq!(input.inventory().item_count(apple()), 12);
}

#[test]
fn consuming_a_recipe_is_all_or_nothing() {
    let manifest = manifest();
    let mut input = InputInventory::Exact { inventory: Inventory::new(2, None) };
    input.add_item_all_or_nothing(&ItemCount::new(apple(), 5), &manifest).unwrap();
    input.add_item_all_or_nothing(&ItemCount::new(berry(), 2), &manifest).unwrap();
    let before = input.slots();

    // The apples are there, the berries are not: nothing is taken.
    let too_much = RecipeInput::Exact(vec![ItemCount::new(apple(), 2), ItemCount::new(berry(), 3)]);
    let error = input.consume_items(&too_much, &manifest).unwrap_err();
    assert_eq!(error.excess_count, ItemCount::new(berry(), 1));
    assert_eq!(input.slots(), before);

    // The same item asked for twice is counted twice.
    let twice = RecipeInput::Exact(vec![ItemCount::new(apple(), 3), ItemCount::new(apple(), 3)]);
    let error = input.consume_items(&twice, &manifest).unwrap_err();
    assert_eq!(error.excess_count, ItemCount::new(apple(), 1));
    assert_eq!(input.slots(), before);

    let enough = RecipeInput::Exact(vec![ItemCount::new(apple(), 2), ItemCount::new(berry(), 2)]);
    assert!(input.consume_items(&enough, &manifest).is_ok());
    assert_eq!(input.slots(), vec![slot(apple(), 3, 10), slot(berry(), 0, 4)]);

    input.clear_empty_slots();
    assert_eq!(input.slots(), vec![slot(apple(), 3, 10)]);
    assert!(input.consume_items(&RecipeInput::Exact(vec![]), &manifest).is_ok());
    assert_eq!(input.slots(), vec![slot(apple(), 3, 10)]);
}

#[test]
fn output_inventory_adds_and_removes() {
    let manifest = manifest();
    let mut output = OutputInventory { inventory: Inventory::new(1, Some(ItemKind::Single(berry()))) };
    assert!(output.add_item_all_or_nothing(&ItemCount::new(apple(), 1), &manifest).is_err());
    let error = output.add_item_all_or_nothing(&ItemCount::new(berry(), 5), &manifest).unwrap_err();
    assert_eq!(error.excess_count, ItemCount::new(berry(), 1));
    assert!(output.add_item_all_or_nothing(&ItemCount::new(berry(), 4), &manifest).is_ok());
    assert!(output.is_full());
    let error = output.try_remove_item(&ItemCount::new(berry(), 5)).unwrap_err();
    assert_eq!(error.excess_count, ItemCount::new(berry(), 1));
    assert!(output.try_remove_item(&ItemCount::new(berry(), 4)).is_ok());
    assert_eq!(output.slots(), vec![slot(berry(), 0, 4)]);
    output.clear_empty_slots();
    assert!(output.slots().is_empty());
    assert!(!output.is_full());
}
