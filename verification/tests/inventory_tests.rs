//! All-or-nothing inventory transfer behavior.

use emergence_lib::ids::ItemId;
use emergence_lib::inventory::{
    AddOneItemError, InputInventory, Inventory, ItemSlot, OutputInventory, RemoveOneItemError,
    StorageInventory,
};
use emergence_lib::items::{ItemCount, ItemData, ItemManifest};

fn leaf() -> ItemId {
    ItemId { value: 1 }
}

fn chunk() -> ItemId {
    ItemId { value: 2 }
}

fn manifest() -> ItemManifest {
    let mut manifest = ItemManifest::new();
    assert!(manifest.insert(
        leaf(),
        ItemData { name: "acacia_leaf".to_string(), stack_size: 10 },
    ));
    assert!(manifest.insert(
        chunk(),
        ItemData { name: "leuco_chunk".to_string(), stack_size: 3 },
    ));
    manifest
}

#[test]
fn add_moves_the_full_count_or_nothing() {
    let manifest = manifest();
    let mut storage = StorageInventory::new(2, None);

    // The full amount fits: it all moves.
    let full = storage.add_item_all_or_nothing(&ItemCount::new(leaf(), 7), &manifest);
    assert!(full.is_ok());
    assert_eq!(storage.item_count(leaf()), 7);

    // Only 3 more fit into the slot of 10: nothing moves.
    let before = storage.clone();
    let refused = storage.add_item_all_or_nothing(&ItemCount::new(leaf(), 4), &manifest);
    assert_eq!(refused, Err(AddOneItemError { excess_count: 1 }));
    assert_eq!(storage, before);

    // Exactly the remaining space moves.
    let exact = storage.add_item_all_or_nothing(&ItemCount::new(leaf(), 3), &manifest);
    assert!(exact.is_ok());
    assert_eq!(storage.item_count(leaf()), 10);
}

#[test]
fn remove_moves_the_full_count_or_nothing() {
    let mut output = OutputInventory {
        inventory: Inventory {
            slots: vec![ItemSlot { item_id: leaf(), count: 2, max_item_count: 10 }],
            max_slot_count: 1,
            reserved_for: None,
        },
    };

    // Asking for more than is present moves nothing.
    let before = output.clone();
    let refused = output.remove_item_all_or_nothing(&ItemCount::new(leaf(), 3));
    assert_eq!(refused, Err(RemoveOneItemError { missing_count: 1 }));
    assert_eq!(output, before);

    // Asking for what is present empties the slot.
    let taken = output.remove_item_all_or_nothing(&ItemCount::new(leaf(), 2));
    assert!(taken.is_ok());
    assert_eq!(output.item_count(leaf()), 0);

    // An absent item cannot be removed at all.
    let missing = output.remove_item_all_or_nothing(&ItemCount::one(chunk()));
    assert_eq!(missing, Err(RemoveOneItemError { missing_count: 1 }));
}

#[test]
fn storage_opens_one_slot_per_item_variety() {
    let manifest = manifest();
    let mut storage = StorageInventory::new(2, None);
    assert!(storage.add_item_all_or_nothing(&ItemCount::one(leaf()), &manifest).is_ok());
    assert!(storage.add_item_all_or_nothing(&ItemCount::one(chunk()), &manifest).is_ok());
    assert_eq!(storage.item_count(leaf()), 1);
    assert_eq!(storage.item_count(chunk()), 1);
    assert_eq!(storage.remaining_space_for_item(leaf(), &manifest), 9);
    assert_eq!(storage.remaining_space_for_item(chunk(), &manifest), 2);
}

#[test]
fn reserved_storage_refuses_other_items() {
    let manifest = manifest();
    let mut storage = StorageInventory::new(3, Some(leaf()));
    assert_eq!(storage.remaining_space_for_item(chunk(), &manifest), 0);
    let refused = storage.add_item_all_or_nothing(&ItemCount::one(chunk()), &manifest);
    assert_eq!(refused, Err(AddOneItemError { excess_count: 1 }));
    assert!(storage.add_item_all_or_nothing(&ItemCount::one(leaf()), &manifest).is_ok());
}

#[test]
fn full_storage_has_no_room_for_new_varieties() {
    let manifest = manifest();
    let mut storage = StorageInventory::new(1, None);
    assert!(storage.add_item_all_or_nothing(&ItemCount::one(leaf()), &manifest).is_ok());
    // The only slot is taken by the leaf variety.
    assert_eq!(storage.remaining_space_for_item(chunk(), &manifest), 0);
    let refused = storage.add_item_all_or_nothing(&ItemCount::one(chunk()), &manifest);
    assert_eq!(refused, Err(AddOneItemError { excess_count: 1 }));
}

#[test]
fn reserved_input_space_counts_only_existing_slots() {
    let manifest = manifest();
    let mut input = InputInventory { inventory: Inventory::new_from_item(leaf(), 2) };
    assert_eq!(input.remaining_reserved_space_for_item(leaf()), 2);
    assert_eq!(input.remaining_reserved_space_for_item(chunk()), 0);

    // The reservation fills, and never opens a slot for another variety.
    assert!(input.add_item_all_or_nothing(&ItemCount::new(leaf(), 2), &manifest).is_ok());
    assert_eq!(input.remaining_reserved_space_for_item(leaf()), 0);
    let refused = input.add_item_all_or_nothing(&ItemCount::one(chunk()), &manifest);
    assert_eq!(refused, Err(AddOneItemError { excess_count: 1 }));
}

#[test]
fn zero_count_transfers_always_succeed() {
    let manifest = manifest();
    let mut storage = StorageInventory::new(0, None);
    assert!(storage.add_item_all_or_nothing(&ItemCount::new(leaf(), 0), &manifest).is_ok());
    assert!(storage.remove_item_all_or_nothing(&ItemCount::new(leaf(), 0)).is_ok());
    assert_eq!(storage.item_count(leaf()), 0);
}
