//! Goal resolution scenarios: neighbor scans, gradient fallback, and
//! deterministic tie-breaking.

use emergence_lib::actions::{CurrentAction, UnitAction};
use emergence_lib::geometry::{Direction, Facing, MapGeometry, RotationDirection, TilePos};
use emergence_lib::goals::Goal;
use emergence_lib::ids::{Entity, ItemId, StructureId};
use emergence_lib::inventory::{Inventory, ItemSlot, OutputInventory, StorageInventory};
use emergence_lib::items::{ItemData, ItemManifest};
use emergence_lib::signals::{SignalType, Signals};
use emergence_lib::terrain::TerrainManifest;
use emergence_lib::world::{World, WorldEntity};
use rand::SeedableRng;

fn leaf() -> ItemId {
    ItemId { value: 1 }
}

fn item_manifest() -> ItemManifest {
    let mut manifest = ItemManifest::new();
    assert!(manifest.insert(
        leaf(),
        ItemData { name: "acacia_leaf".to_string(), stack_size: 10 },
    ));
    manifest
}

fn origin() -> TilePos {
    TilePos { q: 0, r: 0 }
}

fn east_tile() -> TilePos {
    TilePos { q: 1, r: 0 }
}

/// A world with one stocked output container east of the origin.
fn world_with_stocked_container(count: usize) -> World {
    let container = Entity { value: 10 };
    let mut map = MapGeometry::new();
    map.add_valid(origin());
    map.add_valid(east_tile());
    map.add_structure(&vec![east_tile()], container);
    World {
        map,
        entities: vec![WorldEntity {
            entity: container,
            tile_pos: east_tile(),
            structure_id: StructureId { value: 100 },
            is_ghost: false,
            input: None,
            output: Some(OutputInventory {
                inventory: Inventory {
                    slots: vec![ItemSlot { item_id: leaf(), count, max_item_count: 10 }],
                    max_slot_count: 1,
                    reserved_for: None,
                },
            }),
            storage: None,
            crafting_state: None,
            workers_present: None,
            marked_for_demolition: false,
        }],
        next_entity: 11,
    }
}

#[test]
fn pickup_targets_the_single_stocked_neighbor() {
    let world = world_with_stocked_container(1);
    let signals = Signals::new();
    let terrain_manifest = TerrainManifest::new();
    let mut rng = rand::rngs::StdRng::seed_from_u64(7);

    // Already facing the container: the resolver must emit the pickup.
    let action = CurrentAction::find_item(
        leaf(),
        origin(),
        &Facing { direction: Direction::East },
        &Goal::Pickup(leaf()),
        &signals,
        &mut rng,
        &terrain_manifest,
        &world,
    );
    assert_eq!(
        action.action,
        UnitAction::PickUp { item_id: leaf(), output_entity: Entity { value: 10 } },
    );
    assert_eq!(action.timer.remaining_ms, 500);
    assert!(action.just_started);
}

#[test]
fn pickup_spins_first_when_facing_away() {
    let world = world_with_stocked_container(1);
    let signals = Signals::new();
    let terrain_manifest = TerrainManifest::new();
    let mut rng = rand::rngs::StdRng::seed_from_u64(7);

    // Facing north-west, the container is east: two right turns against
    // four left turns, so the single shorter-path spin turns right.
    let action = CurrentAction::find_item(
        leaf(),
        origin(),
        &Facing { direction: Direction::NorthWest },
        &Goal::Pickup(leaf()),
        &signals,
        &mut rng,
        &terrain_manifest,
        &world,
    );
    assert_eq!(
        action.action,
        UnitAction::Spin { rotation_direction: RotationDirection::Right },
    );
}

#[test]
fn empty_container_is_not_a_pickup_source() {
    let world = world_with_stocked_container(0);
    let signals = Signals::new();
    let terrain_manifest = TerrainManifest::new();
    let mut rng = rand::rngs::StdRng::seed_from_u64(7);
    let action = CurrentAction::find_item(
        leaf(),
        origin(),
        &Facing { direction: Direction::East },
        &Goal::Pickup(leaf()),
        &signals,
        &mut rng,
        &terrain_manifest,
        &world,
    );
    // No stock, no signal: the unit idles.
    assert_eq!(action.action, UnitAction::Idle);
}

#[test]
fn delivery_never_targets_generic_storage() {
    // A generic storage container with plenty of space east of the origin.
    let container = Entity { value: 10 };
    let mut map = MapGeometry::new();
    map.add_valid(origin());
    map.add_valid(east_tile());
    map.add_structure(&vec![east_tile()], container);
    let world = World {
        map,
        entities: vec![WorldEntity {
            entity: container,
            tile_pos: east_tile(),
            structure_id: StructureId { value: 100 },
            is_ghost: false,
            input: None,
            output: None,
            storage: Some(StorageInventory::new(3, None)),
            crafting_state: None,
            workers_present: None,
            marked_for_demolition: false,
        }],
        next_entity: 11,
    };
    let signals = Signals::new();
    let terrain_manifest = TerrainManifest::new();
    let item_manifest = item_manifest();
    let mut rng = rand::rngs::StdRng::seed_from_u64(7);

    // A delivery must reach a true input: the storage neighbor is skipped
    // and, with no gradient, the unit idles.
    let delivery = CurrentAction::find_delivery(
        leaf(),
        origin(),
        &Facing { direction: Direction::East },
        &Goal::Deliver(leaf()),
        &signals,
        &mut rng,
        &terrain_manifest,
        &world,
    );
    assert_eq!(delivery.action, UnitAction::Idle);

    // Storing, on the other hand, accepts the very same neighbor.
    let storing = CurrentAction::find_storage(
        leaf(),
        origin(),
        &Facing { direction: Direction::East },
        &Goal::Store(leaf()),
        &signals,
        &mut rng,
        &terrain_manifest,
        &item_manifest,
        &world,
    );
    assert_eq!(
        storing.action,
        UnitAction::DropOff { item_id: leaf(), input_entity: container },
    );
}

#[test]
fn resolution_is_deterministic_under_a_fixed_seed() {
    // Two stocked containers: the choice between them is randomized, but a
    // fixed seed and a fixed world snapshot give the same action each time.
    let second = Entity { value: 11 };
    let north_east = TilePos { q: 1, r: -1 };
    let mut world = world_with_stocked_container(1);
    world.map.add_valid(north_east);
    world.map.add_structure(&vec![north_east], second);
    world.entities.push(WorldEntity {
        entity: second,
        tile_pos: north_east,
        structure_id: StructureId { value: 100 },
        is_ghost: false,
        input: None,
        output: Some(OutputInventory {
            inventory: Inventory {
                slots: vec![ItemSlot { item_id: leaf(), count: 1, max_item_count: 10 }],
                max_slot_count: 1,
                reserved_for: None,
            },
        }),
        storage: None,
        crafting_state: None,
        workers_present: None,
        marked_for_demolition: false,
    });
    world.next_entity = 12;

    let signals = Signals::new();
    let terrain_manifest = TerrainManifest::new();
    let mut first_rng = rand::rngs::StdRng::seed_from_u64(42);
    let mut second_rng = rand::rngs::StdRng::seed_from_u64(42);
    let first_run = CurrentAction::find_item(
        leaf(),
        origin(),
        &Facing { direction: Direction::East },
        &Goal::Pickup(leaf()),
        &signals,
        &mut first_rng,
        &terrain_manifest,
        &world,
    );
    let second_run = CurrentAction::find_item(
        leaf(),
        origin(),
        &Facing { direction: Direction::East },
        &Goal::Pickup(leaf()),
        &signals,
        &mut second_rng,
        &terrain_manifest,
        &world,
    );
    assert_eq!(first_run, second_run);

    // And the same seed gives the same random spin.
    let mut third_rng = rand::rngs::StdRng::seed_from_u64(42);
    let mut fourth_rng = rand::rngs::StdRng::seed_from_u64(42);
    assert_eq!(
        CurrentAction::random_spin(&mut third_rng),
        CurrentAction::random_spin(&mut fourth_rng),
    );
}

#[test]
fn gradient_is_followed_when_no_neighbor_has_stock() {
    let mut map = MapGeometry::new();
    map.add_valid(origin());
    map.add_valid(east_tile());
    let world = World { map, entities: vec![], next_entity: 0 };
    let mut signals = Signals::new();
    // The push signal for the item is stronger to the east.
    assert!(signals.insert(SignalType::Push(leaf()), east_tile(), 5));
    assert!(signals.insert(SignalType::Push(leaf()), origin(), 1));
    let terrain_manifest = TerrainManifest::new();
    let mut rng = rand::rngs::StdRng::seed_from_u64(7);

    let action = CurrentAction::find_item(
        leaf(),
        origin(),
        &Facing { direction: Direction::East },
        &Goal::Pickup(leaf()),
        &signals,
        &mut rng,
        &terrain_manifest,
        &world,
    );
    // Facing the gradient already: walk one tile east.
    assert_eq!(action.action, UnitAction::MoveForward);
    assert_eq!(action.timer.remaining_ms, 500);
}

#[test]
fn upstream_is_none_without_a_gradient() {
    let mut map = MapGeometry::new();
    map.add_valid(origin());
    map.add_valid(east_tile());
    let mut signals = Signals::new();
    // Flat signal: the neighbor is no stronger than the unit's own tile.
    assert!(signals.insert(SignalType::Push(leaf()), east_tile(), 2));
    assert!(signals.insert(SignalType::Push(leaf()), origin(), 2));
    assert_eq!(signals.upstream(origin(), &Goal::Pickup(leaf()), &map), None);
    // Wandering follows no signal at all.
    assert_eq!(signals.upstream(origin(), &Goal::Wander, &map), None);
}

#[test]
fn ghost_with_reserved_space_receives_storage_runs() {
    let ghost = Entity { value: 20 };
    let mut map = MapGeometry::new();
    map.add_valid(origin());
    map.add_valid(east_tile());
    map.add_ghost(east_tile(), ghost);
    let world = World {
        map,
        entities: vec![WorldEntity {
            entity: ghost,
            tile_pos: east_tile(),
            structure_id: StructureId { value: 100 },
            is_ghost: true,
            input: Some(emergence_lib::inventory::InputInventory {
                inventory: Inventory::new_from_item(leaf(), 2),
            }),
            output: None,
            storage: None,
            crafting_state: Some(emergence_lib::crafting::CraftingState::InProgress),
            workers_present: Some(emergence_lib::crafting::WorkersPresent::new(2)),
            marked_for_demolition: false,
        }],
        next_entity: 21,
    };
    let signals = Signals::new();
    let terrain_manifest = TerrainManifest::new();
    let item_manifest = item_manifest();
    let mut rng = rand::rngs::StdRng::seed_from_u64(7);
    let action = CurrentAction::find_storage(
        leaf(),
        origin(),
        &Facing { direction: Direction::East },
        &Goal::Store(leaf()),
        &signals,
        &mut rng,
        &terrain_manifest,
        &item_manifest,
        &world,
    );
    assert_eq!(
        action.action,
        UnitAction::DropOff { item_id: leaf(), input_entity: ghost },
    );
    assert_eq!(action.timer.remaining_ms, 200);
}
