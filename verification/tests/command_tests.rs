//! Placing and removing structures and ghosts.

use emergence_lib::commands::{
    despawn_ghost, despawn_structure, spawn_ghost, spawn_preview, spawn_randomized_structure,
    spawn_structure, ClipboardData,
};
use emergence_lib::construction::{Footprint, GhostKind};
use emergence_lib::crafting::{CraftingState, WorkersPresent};
use emergence_lib::geometry::{Direction, Facing, MapGeometry, TilePos};
use emergence_lib::ids::{Entity, ItemId, StructureId, TerrainId};
use emergence_lib::inventory::{InputInventory, Inventory};
use emergence_lib::items::{ItemCount, ItemData, ItemManifest};
use emergence_lib::structure_manifest::{
    ActiveRecipe, ConstructionStrategy, OrganismId, OrganismVariety, StructureData,
    StructureKind, StructureManifest,
};
use emergence_lib::world::World;
use rand::SeedableRng;

fn loam() -> TerrainId {
    TerrainId { value: 3 }
}

fn storage_id() -> StructureId {
    StructureId { value: 100 }
}

fn hive_id() -> StructureId {
    StructureId { value: 101 }
}

fn manifest() -> StructureManifest {
    let mut manifest = StructureManifest::new();
    assert!(manifest.insert(
        storage_id(),
        "storage".to_string(),
        StructureData {
            organism_variety: None,
            kind: StructureKind::Storage { max_slot_count: 3, reserved_for: None },
            construction_strategy: ConstructionStrategy {
                seedling: None,
                work_ms: 10_000,
                materials: InputInventory {
                    inventory: Inventory::new_from_item(ItemId { value: 2 }, 1),
                },
                allowed_terrain_types: vec![loam()],
            },
            max_workers: 6,
            footprint: Footprint::single(),
        },
    ));
    assert!(manifest.insert(
        hive_id(),
        "ant_hive".to_string(),
        StructureData {
            organism_variety: None,
            kind: StructureKind::Crafting {
                starting_recipe: ActiveRecipe::new(emergence_lib::ids::RecipeId { value: 7 }),
            },
            construction_strategy: ConstructionStrategy {
                seedling: None,
                work_ms: 10_000,
                materials: InputInventory { inventory: Inventory::new(0, None) },
                allowed_terrain_types: vec![loam()],
            },
            max_workers: 3,
            footprint: Footprint::single(),
        },
    ));
    manifest
}

fn origin() -> TilePos {
    TilePos { q: 0, r: 0 }
}

fn loam_world() -> World {
    let mut map = MapGeometry::new();
    map.add_valid(origin());
    map.add_terrain(origin(), loam());
    World { map, entities: vec![], next_entity: 0 }
}

#[test]
fn spawn_structure_occupies_the_tile() {
    let manifest = manifest();
    let mut world = loam_world();
    let data = ClipboardData {
        structure_id: storage_id(),
        facing: Facing { direction: Direction::East },
    };
    let spawned = spawn_structure(&mut world, &manifest, origin(), data);
    assert_eq!(spawned, Some(Entity { value: 0 }));
    assert_eq!(world.map.get_structure(origin()), Some(Entity { value: 0 }));
    assert!(world.entities[0].storage.is_some());
    assert!(world.entities[0].workers_present.is_none());

    // The tile is occupied now: a second spawn has no effect.
    let again = spawn_structure(&mut world, &manifest, origin(), data);
    assert_eq!(again, None);
    assert_eq!(world.entities.len(), 1);
}

#[test]
fn crafting_structures_get_seats_and_a_crafting_state() {
    let manifest = manifest();
    let mut world = loam_world();
    let data = ClipboardData {
        structure_id: hive_id(),
        facing: Facing { direction: Direction::East },
    };
    let spawned = spawn_structure(&mut world, &manifest, origin(), data);
    assert!(spawned.is_some());
    let record = &world.entities[0];
    assert_eq!(record.crafting_state, Some(CraftingState::NeedsInput));
    assert_eq!(record.workers_present, Some(WorkersPresent { current: 0, max: 3 }));
}

#[test]
fn spawn_is_refused_on_wrong_terrain_or_off_the_map() {
    let manifest = manifest();
    let data = ClipboardData {
        structure_id: storage_id(),
        facing: Facing { direction: Direction::East },
    };

    // Wrong terrain.
    let mut rocky_world = World::new();
    rocky_world.map.add_valid(origin());
    rocky_world.map.add_terrain(origin(), TerrainId { value: 99 });
    assert_eq!(spawn_structure(&mut rocky_world, &manifest, origin(), data), None);

    // Off the map entirely.
    let mut empty_world = World::new();
    assert_eq!(spawn_structure(&mut empty_world, &manifest, origin(), data), None);
    assert_eq!(empty_world.entities.len(), 0);
}

#[test]
fn despawn_clears_the_tile_and_drops_the_record() {
    let manifest = manifest();
    let mut world = loam_world();
    let data = ClipboardData {
        structure_id: storage_id(),
        facing: Facing { direction: Direction::East },
    };
    let spawned = spawn_structure(&mut world, &manifest, origin(), data).unwrap();
    assert_eq!(despawn_structure(&mut world, origin()), Some(spawned));
    assert_eq!(world.map.get_structure(origin()), None);
    assert!(world.entities.is_empty());

    // An empty tile despawns to nothing.
    assert_eq!(despawn_structure(&mut world, origin()), None);
}

#[test]
fn ghosts_reserve_materials_and_replace_older_ghosts() {
    let manifest = manifest();
    let mut world = loam_world();
    let data = ClipboardData {
        structure_id: storage_id(),
        facing: Facing { direction: Direction::East },
    };
    let first = spawn_ghost(&mut world, &manifest, origin(), data).unwrap();
    assert_eq!(world.map.get_ghost(origin()), Some(first));
    let record = &world.entities[0];
    assert!(record.is_ghost);
    assert_eq!(record.crafting_state, Some(CraftingState::InProgress));
    // The ghost reserves room for the single construction material.
    assert_eq!(
        record.input.as_ref().unwrap().remaining_reserved_space_for_item(ItemId { value: 2 }),
        1,
    );

    // A second ghost on the same tile replaces the first.
    let second = spawn_ghost(&mut world, &manifest, origin(), data).unwrap();
    assert_ne!(first, second);
    assert_eq!(world.map.get_ghost(origin()), Some(second));
    assert_eq!(world.entities.len(), 1);

    assert_eq!(despawn_ghost(&mut world, origin()), Some(second));
    assert_eq!(world.map.get_ghost(origin()), None);
    assert!(world.entities.is_empty());
}

#[test]
fn previews_reflect_buildability() {
    let manifest = manifest();
    let world = loam_world();
    let data = ClipboardData {
        structure_id: storage_id(),
        facing: Facing { direction: Direction::East },
    };
    assert_eq!(
        spawn_preview(&world, &manifest, origin(), data),
        Some(GhostKind::Preview),
    );

    let mut rocky_world = World::new();
    rocky_world.map.add_valid(origin());
    rocky_world.map.add_terrain(origin(), TerrainId { value: 99 });
    assert_eq!(
        spawn_preview(&rocky_world, &manifest, origin(), data),
        Some(GhostKind::ForbiddenPreview),
    );

    let empty_world = World::new();
    assert_eq!(spawn_preview(&empty_world, &manifest, origin(), data), None);
}

#[test]
fn randomized_spawn_still_respects_placement_rules() {
    let manifest = manifest();
    let mut world = loam_world();
    let data = ClipboardData {
        structure_id: storage_id(),
        facing: Facing { direction: Direction::East },
    };
    let mut rng = rand::rngs::StdRng::seed_from_u64(3);
    let spawned = spawn_randomized_structure(&mut world, &manifest, origin(), data, &mut rng);
    assert_eq!(spawned, Some(Entity { value: 0 }));
    assert_eq!(world.map.get_structure(origin()), Some(Entity { value: 0 }));
}

#[test]
fn prototypes_list_only_canonical_forms() {
    let mut manifest = StructureManifest::new();
    let acacia = StructureId { value: 1 };
    let sprout = StructureId { value: 2 };
    let plain = StructureId { value: 3 };
    let strategy = ConstructionStrategy {
        seedling: None,
        work_ms: 0,
        materials: InputInventory { inventory: Inventory::new(0, None) },
        allowed_terrain_types: vec![loam()],
    };
    // The grown tree is its own canonical form; the sprout is not.
    assert!(manifest.insert(
        acacia,
        "acacia".to_string(),
        StructureData {
            organism_variety: Some(OrganismVariety {
                prototypical_form: OrganismId::Structure(acacia),
            }),
            kind: StructureKind::Crafting { starting_recipe: ActiveRecipe::none() },
            construction_strategy: strategy.clone(),
            max_workers: 1,
            footprint: Footprint::single(),
        },
    ));
    assert!(manifest.insert(
        sprout,
        "acacia_sprout".to_string(),
        StructureData {
            organism_variety: Some(OrganismVariety {
                prototypical_form: OrganismId::Structure(acacia),
            }),
            kind: StructureKind::Crafting { starting_recipe: ActiveRecipe::none() },
            construction_strategy: strategy.clone(),
            max_workers: 1,
            footprint: Footprint::single(),
        },
    ));
    assert!(manifest.insert(
        plain,
        "storage".to_string(),
        StructureData {
            organism_variety: None,
            kind: StructureKind::Storage { max_slot_count: 3, reserved_for: None },
            construction_strategy: strategy,
            max_workers: 6,
            footprint: Footprint::single(),
        },
    ));
    assert_eq!(manifest.prototypes(), vec![acacia, plain]);
    assert_eq!(
        manifest.prototype_names(),
        vec!["acacia".to_string(), "storage".to_string()],
    );
}

#[test]
fn item_count_displays_name_and_count() {
    let mut items = ItemManifest::new();
    let leaf = ItemId { value: 1 };
    assert!(items.insert(
        leaf,
        ItemData { name: "acacia_leaf".to_string(), stack_size: 10 },
    ));
    assert_eq!(
        ItemCount::new(leaf, 12).display(&items),
        "acacia_leaf, (12)".to_string(),
    );
    assert_eq!(ItemCount::one(leaf).item_id(), leaf);
    assert_eq!(ItemCount::one(leaf).count(), 1);
}

#[test]
fn hexagonal_footprints_rotate_cleanly() {
    let footprint = Footprint::hexagon(1);
    assert_eq!(footprint.offsets.len(), 7);
    let rotated = footprint.rotated(Facing { direction: Direction::NorthEast });
    // One rotation permutes the ring and keeps the anchor.
    assert_eq!(rotated.offsets.len(), 7);
    assert_eq!(rotated.offsets[0], TilePos { q: 0, r: 0 });
    assert_eq!(rotated.offsets[1], TilePos { q: 1, r: -1 });
}
