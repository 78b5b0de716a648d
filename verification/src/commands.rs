//! Commands that place and remove structures and ghosts on the world.
//!
//! Each command first validates its placement (the anchor tile must belong
//! to the map, and every footprint tile must be free and on allowed
//! terrain) and has no effect when validation fails.

use vstd::prelude::*;

use crate::construction::{spec_rotate_left, GhostKind};
use crate::crafting::{CraftingState, WorkersPresent};
use crate::geometry::{
    lemma_filtered_tile_cleared, tile_in_range, Direction, Facing, MapGeometry, TileEntity,
    TilePos,
};
use crate::ids::{Entity, StructureId, TerrainId};
use crate::inventory::{InputInventory, Inventory, OutputInventory, StorageInventory};
use crate::rng::choose_index;
use crate::structure_manifest::{StructureData, StructureKind, StructureManifest};
use crate::world::{spec_entity_index, spec_has_entity, World, WorldEntity};

verus! {

/// What a player's clipboard holds about the structure to place.
#[derive(Clone, Copy, Debug, PartialEq, Eq, Structural)]
pub struct ClipboardData {
    /// The variety of structure to place.
    pub structure_id: StructureId,
    /// The orientation to place it in.
    pub facing: Facing,
}

/// The tile at `offset` from `anchor`.
pub open spec fn spec_placed_tile(anchor: TilePos, offset: TilePos) -> TilePos {
    TilePos { q: (anchor.q + offset.q) as i64, r: (anchor.r + offset.r) as i64 }
}

/// The tiles a structure of the given variety would occupy when anchored at
/// `anchor` facing `facing`.
pub open spec fn spec_footprint_tiles(
    anchor: TilePos,
    data: StructureData,
    facing: Facing,
) -> Seq<TilePos> {
    Seq::new(
        data.footprint.offsets@.len(),
        |i: int|
            spec_placed_tile(
                anchor,
                spec_rotate_left(data.footprint.offsets@[i], facing.direction.spec_index()),
            ),
    )
}

/// A single tile can host a new structure: it belongs to the map, nothing
/// stands on it, and its terrain is among the allowed varieties.
pub open spec fn spec_buildable(map: MapGeometry, allowed: Seq<TerrainId>, t: TilePos) -> bool {
    &&& map.spec_is_valid(t)
    &&& map.spec_structure_at(t) is None
    &&& match map.spec_terrain_at(t) {
        Some(terrain_id) => allowed.contains(terrain_id),
        None => false,
    }
}

/// Every tile in `tiles` can host the new structure.
pub open spec fn spec_can_build(map: MapGeometry, tiles: Seq<TilePos>, allowed: Seq<
    TerrainId,
>) -> bool {
    forall|i: int| 0 <= i < tiles.len() ==> spec_buildable(map, allowed, #[trigger] tiles[i])
}

/// Whether every tile in `tiles` can host the new structure.
fn can_build(map: &MapGeometry, tiles: &Vec<TilePos>, allowed_terrain: &Vec<TerrainId>) -> (result:
    bool)
    requires
        map.wf(),
    ensures
        result == spec_can_build(*map, tiles@, allowed_terrain@),
{
    let n = tiles.len();
    let mut i: usize = 0;
    while i < n
        invariant
            n == tiles@.len(),
            i <= n,
            map.wf(),
            forall|k: int| 0 <= k < i ==> spec_buildable(*map, allowed_terrain@, #[trigger] tiles@[k]),
        decreases n - i,
    {
        let t = tiles[i];
        if !map.is_valid(t) {
            return false;
        }
        match map.get_structure(t) {
            Some(_) => {
                return false;
            },
            None => {},
        }
        let terrain_id = match map.get_terrain(t) {
            None => {
                return false;
            },
            Some(terrain_id) => terrain_id,
        };
        let m = allowed_terrain.len();
        let mut j: usize = 0;
        let mut allowed = false;
        while j < m
            invariant
                m == allowed_terrain@.len(),
                j <= m,
                allowed == exists|k: int|
                    0 <= k < j && allowed_terrain@[k] == terrain_id,
            decreases m - j,
        {
            if allowed_terrain[j].value == terrain_id.value {
                allowed = true;
            }
            j += 1;
        }
        if !allowed {
            proof {
                assert(!allowed_terrain@.contains(terrain_id));
            }
            return false;
        }
        i += 1;
    }
    true
}

/// The new record for a spawned structure carries exactly the components
/// its variety calls for: a storage structure gets its storage inventory; a
/// crafting structure gets empty input and output inventories (sized when a
/// recipe is selected, outside this engine), its crafting state, and its
/// worker seats.
pub open spec fn spec_new_structure_record_matches(
    record: WorldEntity,
    entity: Entity,
    tile_pos: TilePos,
    structure_id: StructureId,
    data: StructureData,
) -> bool {
    &&& record.entity == entity
    &&& record.tile_pos == tile_pos
    &&& record.structure_id == structure_id
    &&& !record.is_ghost
    &&& !record.marked_for_demolition
    &&& match data.kind {
        StructureKind::Storage { max_slot_count, reserved_for } => {
            &&& record.input is None
            &&& record.output is None
            &&& record.crafting_state is None
            &&& record.workers_present is None
            &&& record.storage matches Some(s) && s.inventory.slots@.len() == 0
                && s.inventory.max_slot_count == max_slot_count && s.inventory.reserved_for
                == reserved_for
        },
        StructureKind::Crafting { starting_recipe } => {
            &&& record.storage is None
            &&& record.input matches Some(i) && i.inventory.slots@.len() == 0
            &&& record.output matches Some(o) && o.inventory.slots@.len() == 0
            &&& record.crafting_state == Some(
                if starting_recipe.recipe_id is Some {
                    CraftingState::NeedsInput
                } else {
                    CraftingState::NoRecipe
                },
            )
            &&& record.workers_present == Some(
                WorkersPresent { current: 0, max: data.max_workers },
            )
        },
    }
}

/// What spawning a structure does: nothing at all when the anchor tile is
/// not on the map or the footprint cannot be built on; otherwise one new
/// record appears, the footprint tiles are occupied, and the spawned entity
/// is returned.
pub open spec fn spec_spawn_structure_post(
    w0: World,
    manifest: StructureManifest,
    tile_pos: TilePos,
    data: ClipboardData,
    w1: World,
    result: Option<Entity>,
) -> bool {
    let sdata = manifest.spec_get(data.structure_id);
    let tiles = spec_footprint_tiles(tile_pos, sdata, data.facing);
    let allowed = sdata.construction_strategy.allowed_terrain_types@;
    if !(w0.map.spec_is_valid(tile_pos) && spec_can_build(w0.map, tiles, allowed)) {
        w1 == w0 && result is None
    } else {
        let entity = Entity { value: w0.next_entity };
        &&& result == Some(entity)
        &&& w1.next_entity == w0.next_entity + 1
        &&& w1.entities@.len() == w0.entities@.len() + 1
        &&& forall|m: int| 0 <= m < w0.entities@.len() ==> w1.entities@[m] == w0.entities@[m]
        &&& spec_new_structure_record_matches(
            w1.entities@.last(),
            entity,
            tile_pos,
            data.structure_id,
            sdata,
        )
        &&& w1.map.structures@ == w0.map.structures@ + tiles.map_values(
            |t: TilePos| TileEntity { tile_pos: t, entity },
        )
        &&& w1.map.valid@ == w0.map.valid@
        &&& w1.map.impassable@ == w0.map.impassable@
        &&& w1.map.terrain@ == w0.map.terrain@
        &&& w1.map.ghosts@ == w0.map.ghosts@
    }
}

/// Spawns a structure of the variety in `data` anchored at `tile_pos`.
///
/// Has no effect if the anchor tile is off the map or any footprint tile is
/// occupied or on disallowed terrain.
pub fn spawn_structure(
    world: &mut World,
    manifest: &StructureManifest,
    tile_pos: TilePos,
    data: ClipboardData,
) -> (result: Option<Entity>)
    requires
        old(world).wf(),
        manifest.wf(),
        manifest.spec_has(data.structure_id),
        tile_in_range(tile_pos),
        old(world).next_entity < u64::MAX,
    ensures
        final(world).wf(),
        spec_spawn_structure_post(*old(world), *manifest, tile_pos, data, *final(world), result),
{
    if !world.map.is_valid(tile_pos) {
        return None;
    }
    let structure_variety = manifest.get(data.structure_id);
    let rotated = structure_variety.footprint.rotated(data.facing);
    let ghost spec_tiles = spec_footprint_tiles(
        tile_pos,
        manifest.spec_get(data.structure_id),
        data.facing,
    );
    let n = rotated.offsets.len();
    let mut tiles: Vec<TilePos> = Vec::new();
    let mut i: usize = 0;
    while i < n
        invariant
            n == rotated.offsets@.len(),
            i <= n,
            tile_in_range(tile_pos),
            rotated.wf(),
            spec_tiles.len() == n,
            forall|k: int|
                0 <= k < n ==> spec_tiles[k] == spec_placed_tile(
                    tile_pos,
                    #[trigger] rotated.offsets@[k],
                ),
            tiles@.len() == i,
            forall|k: int| 0 <= k < i ==> tiles@[k] == spec_tiles[k],
        decreases n - i,
    {
        let offset = rotated.offsets[i];
        tiles.push(TilePos { q: tile_pos.q + offset.q, r: tile_pos.r + offset.r });
        i += 1;
    }
    proof {
        assert(tiles@ =~= spec_tiles);
    }
    if !can_build(&world.map, &tiles, structure_variety.allowed_terrain_types()) {
        return None;
    }
    proof {
        assert forall|a: int, b: int| 0 <= a < b < tiles@.len() implies tiles@[a]
            != tiles@[b] by {
            assert(rotated.offsets@[a] != rotated.offsets@[b]);
        }
    }
    let entity = Entity { value: world.next_entity };
    world.next_entity = world.next_entity + 1;
    let record = match structure_variety.kind {
        StructureKind::Storage { max_slot_count, reserved_for } => WorldEntity {
            entity,
            tile_pos,
            structure_id: data.structure_id,
            is_ghost: false,
            input: None,
            output: None,
            storage: Some(StorageInventory::new(max_slot_count, reserved_for)),
            crafting_state: None,
            workers_present: None,
            marked_for_demolition: false,
        },
        StructureKind::Crafting { starting_recipe } => WorldEntity {
            entity,
            tile_pos,
            structure_id: data.structure_id,
            is_ghost: false,
            input: Some(InputInventory { inventory: Inventory::new(0, None) }),
            output: Some(OutputInventory { inventory: Inventory::new(0, None) }),
            storage: None,
            crafting_state: Some(
                if starting_recipe.recipe_id.is_some() {
                    CraftingState::NeedsInput
                } else {
                    CraftingState::NoRecipe
                },
            ),
            workers_present: Some(WorkersPresent::new(structure_variety.max_workers)),
            marked_for_demolition: false,
        },
    };
    world.entities.push(record);
    world.map.add_structure(&tiles, entity);
    Some(entity)
}

/// Spawns a structure with a randomized orientation at `tile_pos`; intended
/// for world generation.
pub fn spawn_randomized_structure(
    world: &mut World,
    manifest: &StructureManifest,
    tile_pos: TilePos,
    data: ClipboardData,
    rng: &mut rand::rngs::StdRng,
) -> (result: Option<Entity>)
    requires
        old(world).wf(),
        manifest.wf(),
        manifest.spec_has(data.structure_id),
        tile_in_range(tile_pos),
        old(world).next_entity < u64::MAX,
    ensures
        final(world).wf(),
        exists|direction: Direction|
            spec_spawn_structure_post(
                *old(world),
                *manifest,
                tile_pos,
                ClipboardData { structure_id: data.structure_id, facing: Facing { direction } },
                *final(world),
                result,
            ),
{
    let side = choose_index(rng, 6);
    let direction = if side == 0 {
        Direction::East
    } else if side == 1 {
        Direction::NorthEast
    } else if side == 2 {
        Direction::NorthWest
    } else if side == 3 {
        Direction::West
    } else if side == 4 {
        Direction::SouthWest
    } else {
        Direction::SouthEast
    };
    let randomized = ClipboardData { structure_id: data.structure_id, facing: Facing { direction } };
    spawn_structure(world, manifest, tile_pos, randomized)
}

/// Despawns any structure at the provided `tile_pos`, clearing all the
/// tiles it occupies and dropping its record.
///
/// Has no effect if the tile holds no structure.
pub fn despawn_structure(world: &mut World, tile_pos: TilePos) -> (result: Option<Entity>)
    requires
        old(world).wf(),
    ensures
        final(world).wf(),
        result == old(world).map.spec_structure_at(tile_pos),
        result is None ==> *final(world) == *old(world),
        result matches Some(e) ==> {
            &&& final(world).map.structures@ == old(world).map.structures@.filter(
                |rec: TileEntity| rec.entity != e,
            )
            &&& final(world).map.valid@ == old(world).map.valid@
            &&& final(world).map.impassable@ == old(world).map.impassable@
            &&& final(world).map.terrain@ == old(world).map.terrain@
            &&& final(world).map.ghosts@ == old(world).map.ghosts@
            &&& final(world).next_entity == old(world).next_entity
            &&& !spec_has_entity(old(world).entities@, e) ==> final(world).entities@ == old(
                world,
            ).entities@
            &&& spec_has_entity(old(world).entities@, e) ==> final(world).entities@ == old(
                world,
            ).entities@.remove(spec_entity_index(old(world).entities@, e))
        },
{
    let maybe_entity = world.map.remove_structure(tile_pos);
    match maybe_entity {
        None => None,
        Some(entity) => {
            world.remove_entity_record(entity);
            Some(entity)
        },
    }
}

/// The new record for a spawned ghost: it reserves the construction
/// materials as its input, offers seats for builders, and counts as a
/// construction in progress.
pub open spec fn spec_new_ghost_record_matches(
    record: WorldEntity,
    entity: Entity,
    tile_pos: TilePos,
    structure_id: StructureId,
    data: StructureData,
) -> bool {
    &&& record.entity == entity
    &&& record.tile_pos == tile_pos
    &&& record.structure_id == structure_id
    &&& record.is_ghost
    &&& !record.marked_for_demolition
    &&& record.storage is None
    &&& record.output is None
    &&& record.input matches Some(i) && i.inventory.slots@
        == data.construction_strategy.materials.inventory.slots@ && i.inventory.max_slot_count
        == data.construction_strategy.materials.inventory.max_slot_count
        && i.inventory.reserved_for == data.construction_strategy.materials.inventory.reserved_for
    &&& record.crafting_state == Some(CraftingState::InProgress)
    &&& record.workers_present == Some(WorkersPresent { current: 0, max: data.max_workers })
}

/// What spawning a ghost does: nothing when the anchor tile is off the map
/// or the footprint cannot be built on; otherwise any ghost previously on
/// the anchor tile is replaced, one new ghost record appears, and the
/// spawned entity is returned.
pub open spec fn spec_spawn_ghost_post(
    w0: World,
    manifest: StructureManifest,
    tile_pos: TilePos,
    data: ClipboardData,
    w1: World,
    result: Option<Entity>,
) -> bool {
    let sdata = manifest.spec_get(data.structure_id);
    let tiles = spec_footprint_tiles(tile_pos, sdata, data.facing);
    let allowed = sdata.construction_strategy.allowed_terrain_types@;
    if !(w0.map.spec_is_valid(tile_pos) && spec_can_build(w0.map, tiles, allowed)) {
        w1 == w0 && result is None
    } else {
        let entity = Entity { value: w0.next_entity };
        let ghosts0 = match w0.map.spec_ghost_at(tile_pos) {
            Some(g) => w0.map.ghosts@.filter(|rec: TileEntity| rec.entity != g),
            None => w0.map.ghosts@,
        };
        let entities0 = match w0.map.spec_ghost_at(tile_pos) {
            Some(g) => if spec_has_entity(w0.entities@, g) {
                w0.entities@.remove(spec_entity_index(w0.entities@, g))
            } else {
                w0.entities@
            },
            None => w0.entities@,
        };
        &&& result == Some(entity)
        &&& w1.next_entity == w0.next_entity + 1
        &&& w1.map.ghosts@ == ghosts0.push(TileEntity { tile_pos, entity })
        &&& w1.map.structures@ == w0.map.structures@
        &&& w1.map.valid@ == w0.map.valid@
        &&& w1.map.impassable@ == w0.map.impassable@
        &&& w1.map.terrain@ == w0.map.terrain@
        &&& w1.entities@.len() == entities0.len() + 1
        &&& forall|m: int| 0 <= m < entities0.len() ==> w1.entities@[m] == entities0[m]
        &&& spec_new_ghost_record_matches(
            w1.entities@.last(),
            entity,
            tile_pos,
            data.structure_id,
            sdata,
        )
    }
}

/// Spawns a ghost of the variety in `data` at `tile_pos`, replacing any
/// ghost already on that tile.
///
/// Has no effect if the anchor tile is off the map or any footprint tile is
/// occupied or on disallowed terrain.
pub fn spawn_ghost(
    world: &mut World,
    manifest: &StructureManifest,
    tile_pos: TilePos,
    data: ClipboardData,
) -> (result: Option<Entity>)
    requires
        old(world).wf(),
        manifest.wf(),
        manifest.spec_has(data.structure_id),
        tile_in_range(tile_pos),
        old(world).next_entity < u64::MAX,
    ensures
        final(world).wf(),
        spec_spawn_ghost_post(*old(world), *manifest, tile_pos, data, *final(world), result),
{
    if !world.map.is_valid(tile_pos) {
        return None;
    }
    let structure_variety = manifest.get(data.structure_id);
    let rotated = structure_variety.footprint.rotated(data.facing);
    let ghost spec_tiles = spec_footprint_tiles(
        tile_pos,
        manifest.spec_get(data.structure_id),
        data.facing,
    );
    let n = rotated.offsets.len();
    let mut tiles: Vec<TilePos> = Vec::new();
    let mut i: usize = 0;
    while i < n
        invariant
            n == rotated.offsets@.len(),
            i <= n,
            tile_in_range(tile_pos),
            rotated.wf(),
            spec_tiles.len() == n,
            forall|k: int|
                0 <= k < n ==> spec_tiles[k] == spec_placed_tile(
                    tile_pos,
                    #[trigger] rotated.offsets@[k],
                ),
            tiles@.len() == i,
            forall|k: int| 0 <= k < i ==> tiles@[k] == spec_tiles[k],
        decreases n - i,
    {
        let offset = rotated.offsets[i];
        tiles.push(TilePos { q: tile_pos.q + offset.q, r: tile_pos.r + offset.r });
        i += 1;
    }
    proof {
        assert(tiles@ =~= spec_tiles);
    }
    if !can_build(&world.map, &tiles, structure_variety.allowed_terrain_types()) {
        return None;
    }
    // Replace any existing ghost on the anchor tile.
    let maybe_existing_ghost = world.map.remove_ghost(tile_pos);
    match maybe_existing_ghost {
        Some(existing_ghost) => {
            proof {
                lemma_filtered_tile_cleared(
                    old(world).map.ghosts@,
                    tile_pos,
                    existing_ghost,
                );
            }
            world.remove_entity_record(existing_ghost);
        },
        None => {},
    }
    let entity = Entity { value: world.next_entity };
    world.next_entity = world.next_entity + 1;
    let record = WorldEntity {
        entity,
        tile_pos,
        structure_id: data.structure_id,
        is_ghost: true,
        input: Some(
            InputInventory {
                inventory: structure_variety.construction_strategy.materials.inventory.duplicate(),
            },
        ),
        output: None,
        storage: None,
        crafting_state: Some(CraftingState::InProgress),
        workers_present: Some(WorkersPresent::new(structure_variety.max_workers)),
        marked_for_demolition: false,
    };
    world.entities.push(record);
    world.map.add_ghost(tile_pos, entity);
    Some(entity)
}

/// Despawns any ghost at the provided `tile_pos`, dropping its record.
///
/// Has no effect if the tile holds no ghost.
pub fn despawn_ghost(world: &mut World, tile_pos: TilePos) -> (result: Option<Entity>)
    requires
        old(world).wf(),
    ensures
        final(world).wf(),
        result == old(world).map.spec_ghost_at(tile_pos),
        result is None ==> *final(world) == *old(world),
        result matches Some(e) ==> {
            &&& final(world).map.ghosts@ == old(world).map.ghosts@.filter(
                |rec: TileEntity| rec.entity != e,
            )
            &&& final(world).map.valid@ == old(world).map.valid@
            &&& final(world).map.impassable@ == old(world).map.impassable@
            &&& final(world).map.terrain@ == old(world).map.terrain@
            &&& final(world).map.structures@ == old(world).map.structures@
            &&& final(world).next_entity == old(world).next_entity
            &&& !spec_has_entity(old(world).entities@, e) ==> final(world).entities@ == old(
                world,
            ).entities@
            &&& spec_has_entity(old(world).entities@, e) ==> final(world).entities@ == old(
                world,
            ).entities@.remove(spec_entity_index(old(world).entities@, e))
        },
{
    let maybe_entity = world.map.remove_ghost(tile_pos);
    match maybe_entity {
        None => None,
        Some(entity) => {
            world.remove_entity_record(entity);
            Some(entity)
        },
    }
}

/// Decides what a placement preview at `tile_pos` should look like: no
/// preview at all off the map, a normal preview where building can proceed,
/// and a forbidden preview where it cannot.
pub fn spawn_preview(
    world: &World,
    manifest: &StructureManifest,
    tile_pos: TilePos,
    data: ClipboardData,
) -> (result: Option<GhostKind>)
    requires
        world.wf(),
        manifest.wf(),
        manifest.spec_has(data.structure_id),
        tile_in_range(tile_pos),
    ensures
        result == (if !world.map.spec_is_valid(tile_pos) {
            Option::<GhostKind>::None
        } else if spec_can_build(
            world.map,
            spec_footprint_tiles(tile_pos, manifest.spec_get(data.structure_id), data.facing),
            manifest.spec_get(data.structure_id).construction_strategy.allowed_terrain_types@,
        ) {
            Some(GhostKind::Preview)
        } else {
            Some(GhostKind::ForbiddenPreview)
        }),
{
    if !world.map.is_valid(tile_pos) {
        return None;
    }
    let structure_variety = manifest.get(data.structure_id);
    let rotated = structure_variety.footprint.rotated(data.facing);
    let ghost spec_tiles = spec_footprint_tiles(
        tile_pos,
        manifest.spec_get(data.structure_id),
        data.facing,
    );
    let n = rotated.offsets.len();
    let mut tiles: Vec<TilePos> = Vec::new();
    let mut i: usize = 0;
    while i < n
        invariant
            n == rotated.offsets@.len(),
            i <= n,
            tile_in_range(tile_pos),
            rotated.wf(),
            spec_tiles.len() == n,
            forall|k: int|
                0 <= k < n ==> spec_tiles[k] == spec_placed_tile(
                    tile_pos,
                    #[trigger] rotated.offsets@[k],
                ),
            tiles@.len() == i,
            forall|k: int| 0 <= k < i ==> tiles@[k] == spec_tiles[k],
        decreases n - i,
    {
        let offset = rotated.offsets[i];
        tiles.push(TilePos { q: tile_pos.q + offset.q, r: tile_pos.r + offset.r });
        i += 1;
    }
    proof {
        assert(tiles@ =~= spec_tiles);
    }
    let forbidden = !can_build(&world.map, &tiles, structure_variety.allowed_terrain_types());
    if forbidden {
        Some(GhostKind::ForbiddenPreview)
    } else {
        Some(GhostKind::Preview)
    }
}

} // verus!
