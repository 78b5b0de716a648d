//! The timed action state machine a unit executes, and the resolvers that
//! turn a goal into the next action.
//!
//! Constructors build a [`CurrentAction`] with `just_started` set and a
//! duration fixed per action kind; no constructor validates preconditions —
//! validation is the resolver's job, the state machine is a dumb timed
//! container.  Entry side effects (claiming a seat) happen in the start
//! phase while `just_started` holds; exit side effects happen in the finish
//! phase once the countdown reaches zero.

use vstd::prelude::*;

use crate::geometry::{
    left_steps, right_steps, tile_in_range, Direction, Facing, MapGeometry, RotationDirection,
    TilePos,
};
use crate::goals::Goal;
use crate::ids::{Entity, ItemId, StructureId};
use crate::inventory::{spec_count, spec_slot_space};
use crate::items::ItemManifest;
use crate::rng::choose_index;
use crate::signals::Signals;
use crate::terrain::TerrainManifest;
use crate::world::World;

verus! {

/// How long doing nothing takes.
pub const IDLE_DURATION_MS: u64 = 100;

/// How long one 60-degree turn takes.
pub const SPIN_DURATION_MS: u64 = 100;

/// How long handing an item over takes.
pub const DROPOFF_DURATION_MS: u64 = 200;

/// How long picking an item up takes.
pub const PICKUP_DURATION_MS: u64 = 500;

/// How long eating takes.
pub const EAT_DURATION_MS: u64 = 500;

/// How long a standard unit walks to an adjacent tile on standard terrain.
pub const BASE_WALKING_DURATION_MS: u64 = 500;

/// How long one round of work takes.
pub const WORK_DURATION_MS: u64 = 1000;

/// How long one round of demolition takes.
pub const DEMOLISH_DURATION_MS: u64 = 1000;

/// A countdown over the fixed simulation steps, in milliseconds.
#[derive(Clone, Copy, Debug, PartialEq, Eq, Structural)]
pub struct Timer {
    /// The time left until the countdown elapses.
    pub remaining_ms: u64,
}

impl Timer {
    /// The countdown has elapsed.
    pub open spec fn spec_finished(&self) -> bool {
        self.remaining_ms == 0
    }

    /// The countdown after `delta_ms` have passed; it never goes below zero.
    pub open spec fn spec_ticked(&self, delta_ms: u64) -> Timer {
        Timer {
            remaining_ms: if delta_ms >= self.remaining_ms {
                0
            } else {
                (self.remaining_ms - delta_ms) as u64
            },
        }
    }

    /// A countdown of `ms` milliseconds.
    pub fn from_millis(ms: u64) -> (result: Timer)
        ensures
            result.remaining_ms == ms,
    {
        Timer { remaining_ms: ms }
    }

    /// Advances the countdown by `delta_ms`, stopping at zero.
    pub fn tick(&mut self, delta_ms: u64)
        ensures
            *final(self) == old(self).spec_ticked(delta_ms),
    {
        if delta_ms >= self.remaining_ms {
            self.remaining_ms = 0;
        } else {
            self.remaining_ms = self.remaining_ms - delta_ms;
        }
    }

    /// Whether the countdown has elapsed.
    pub fn finished(&self) -> (result: bool)
        ensures
            result == self.spec_finished(),
    {
        self.remaining_ms == 0
    }
}

/// Advancing a timer never un-finishes it: once the countdown has elapsed,
/// any further ticks leave it elapsed.
pub proof fn lemma_finished_stays_finished(timer: Timer, delta_ms: u64)
    requires
        timer.spec_finished(),
    ensures
        timer.spec_ticked(delta_ms).spec_finished(),
{
}

/// An action that a unit can take.
#[derive(Clone, Copy, Debug, PartialEq, Eq, Structural)]
pub enum UnitAction {
    /// Do nothing for now.
    Idle,
    /// Pick up the `item_id` from the `output_entity`.
    PickUp {
        /// The item to pick up.
        item_id: ItemId,
        /// The entity to grab it from, which must have an output or storage
        /// inventory.
        output_entity: Entity,
    },
    /// Drop off the `item_id` at the `input_entity`.
    DropOff {
        /// The carried item to drop off.
        item_id: ItemId,
        /// The entity to drop it off at, which must have an input or storage
        /// inventory.
        input_entity: Entity,
    },
    /// Perform work at the provided `structure_entity`.
    Work {
        /// The structure to work at.
        structure_entity: Entity,
    },
    /// Attempt to deconstruct the provided `structure_entity`.
    Demolish {
        /// The structure to tear down.
        structure_entity: Entity,
    },
    /// Spin left or right.
    Spin {
        /// The direction to turn in.
        rotation_direction: RotationDirection,
    },
    /// Move one tile forward, as determined by the unit's facing.
    MoveForward,
    /// Eat the currently held item.
    Eat,
    /// Abandon whatever is currently held.
    Abandon,
}

impl UnitAction {
    /// The workplace entity this action claims a seat at, if any.
    pub open spec fn spec_workplace(&self) -> Option<Entity> {
        match *self {
            UnitAction::Work { structure_entity } => Some(structure_entity),
            UnitAction::Demolish { structure_entity } => Some(structure_entity),
            UnitAction::DropOff { item_id: _, input_entity } => Some(input_entity),
            UnitAction::PickUp { item_id: _, output_entity } => Some(output_entity),
            _ => None,
        }
    }

    /// Gets the workplace entity that this action is targeting, if any.
    pub fn workplace(&self) -> (result: Option<Entity>)
        ensures
            result == self.spec_workplace(),
    {
        match self {
            UnitAction::Work { structure_entity } => Some(*structure_entity),
            UnitAction::Demolish { structure_entity } => Some(*structure_entity),
            UnitAction::DropOff { item_id: _, input_entity } => Some(*input_entity),
            UnitAction::PickUp { item_id: _, output_entity } => Some(*output_entity),
            _ => None,
        }
    }
}

/// The item mentioned by the action, if any, has a manifest entry, so that
/// the action can be displayed.
pub open spec fn spec_display_items_known(action: UnitAction, item_manifest: ItemManifest) -> bool {
    match action {
        UnitAction::PickUp { item_id, .. } => item_manifest.spec_has_item(item_id),
        UnitAction::DropOff { item_id, .. } => item_manifest.spec_has_item(item_id),
        _ => true,
    }
}

/// The pretty text for an action.
pub open spec fn spec_action_display(action: UnitAction, item_manifest: ItemManifest) -> Seq<
    char,
> {
    match action {
        UnitAction::Idle => "Idling"@,
        UnitAction::PickUp { item_id, output_entity } => "Picking up "@
            + item_manifest.spec_name(item_id) + " from "@ + crate::text::spec_decimal(
            output_entity.value as int,
        ),
        UnitAction::DropOff { item_id, input_entity } => "Dropping off "@
            + item_manifest.spec_name(item_id) + " at "@ + crate::text::spec_decimal(
            input_entity.value as int,
        ),
        UnitAction::Work { structure_entity } => "Working at "@ + crate::text::spec_decimal(
            structure_entity.value as int,
        ),
        UnitAction::Demolish { structure_entity } => "Demolishing "@ + crate::text::spec_decimal(
            structure_entity.value as int,
        ),
        UnitAction::Spin { rotation_direction } => "Spinning "@ + (match rotation_direction {
            RotationDirection::Left => "left"@,
            RotationDirection::Right => "right"@,
        }),
        UnitAction::MoveForward => "Moving forward"@,
        UnitAction::Eat => "Eating"@,
        UnitAction::Abandon => "Abandoning held object"@,
    }
}

impl UnitAction {
    /// Pretty formatting for this type.
    pub fn display(&self, item_manifest: &ItemManifest) -> (result: String)
        requires
            item_manifest.wf(),
            spec_display_items_known(*self, *item_manifest),
        ensures
            result@ == spec_action_display(*self, *item_manifest),
    {
        match self {
            UnitAction::Idle => "Idling".to_owned(),
            UnitAction::PickUp { item_id, output_entity } => {
                let mut text = "Picking up ".to_owned();
                text.append(item_manifest.name(*item_id).as_str());
                text.append(" from ");
                let entity_text = crate::text::u64_to_string(output_entity.value);
                text.append(entity_text.as_str());
                text
            },
            UnitAction::DropOff { item_id, input_entity } => {
                let mut text = "Dropping off ".to_owned();
                text.append(item_manifest.name(*item_id).as_str());
                text.append(" at ");
                let entity_text = crate::text::u64_to_string(input_entity.value);
                text.append(entity_text.as_str());
                text
            },
            UnitAction::Work { structure_entity } => {
                let mut text = "Working at ".to_owned();
                let entity_text = crate::text::u64_to_string(structure_entity.value);
                text.append(entity_text.as_str());
                text
            },
            UnitAction::Demolish { structure_entity } => {
                let mut text = "Demolishing ".to_owned();
                let entity_text = crate::text::u64_to_string(structure_entity.value);
                text.append(entity_text.as_str());
                text
            },
            UnitAction::Spin { rotation_direction } => {
                let mut text = "Spinning ".to_owned();
                match rotation_direction {
                    RotationDirection::Left => text.append("left"),
                    RotationDirection::Right => text.append("right"),
                }
                text
            },
            UnitAction::MoveForward => "Moving forward".to_owned(),
            UnitAction::Eat => "Eating".to_owned(),
            UnitAction::Abandon => "Abandoning held object".to_owned(),
        }
    }
}

/// The action a unit is undertaking: a tagged variant, a countdown, and a
/// flag consumed exactly once by the start phase.
#[derive(Clone, Copy, Debug, PartialEq, Eq, Structural)]
pub struct CurrentAction {
    /// The kind of action being undertaken.
    pub action: UnitAction,
    /// The time left to complete the action.
    pub timer: Timer,
    /// Whether the action's entry side effects are still owed.
    pub just_started: bool,
}

impl Default for CurrentAction {
    /// A fresh unit starts out idling.
    fn default() -> (result: CurrentAction)
        ensures
            result == CurrentAction::spec_idle(),
    {
        CurrentAction::idle()
    }
}

impl CurrentAction {
    /// Doing nothing for the idle duration.
    pub open spec fn spec_idle() -> CurrentAction {
        CurrentAction {
            action: UnitAction::Idle,
            timer: Timer { remaining_ms: IDLE_DURATION_MS },
            just_started: true,
        }
    }

    /// One 60-degree turn in the given direction.
    pub open spec fn spec_spin(rotation_direction: RotationDirection) -> CurrentAction {
        CurrentAction {
            action: UnitAction::Spin { rotation_direction },
            timer: Timer { remaining_ms: SPIN_DURATION_MS },
            just_started: true,
        }
    }

    /// The single turn that starts rotating `facing` toward
    /// `required_direction`: left when the counterclockwise way around is no
    /// longer than the clockwise way, right otherwise.
    pub open spec fn spec_spin_towards(facing: Facing, required_direction: Direction)
        -> CurrentAction {
        let l = left_steps(facing.direction, required_direction);
        if l == 0 || l <= 3 {
            Self::spec_spin(RotationDirection::Left)
        } else {
            Self::spec_spin(RotationDirection::Right)
        }
    }

    /// How long walking off the terrain under `pos` takes: the standard
    /// walking duration scaled down by the terrain's walking speed.
    pub open spec fn spec_walk_duration_ms(
        map: MapGeometry,
        terrain_manifest: TerrainManifest,
        pos: TilePos,
    ) -> u64 {
        let speed = match map.spec_terrain_at(pos) {
            Some(terrain_id) => terrain_manifest.spec_walking_speed(terrain_id),
            None => crate::terrain::STANDARD_WALKING_SPEED,
        };
        if speed == 0 {
            BASE_WALKING_DURATION_MS
        } else {
            ((BASE_WALKING_DURATION_MS as int * 100) / (speed as int)) as u64
        }
    }

    /// Walking one tile ahead, or idling when the tile ahead cannot be
    /// walked onto.
    pub open spec fn spec_move_forward(
        pos: TilePos,
        facing: Facing,
        map: MapGeometry,
        terrain_manifest: TerrainManifest,
    ) -> CurrentAction {
        let target = pos.spec_neighbor(facing.direction);
        if map.spec_is_passable(target) {
            CurrentAction {
                action: UnitAction::MoveForward,
                timer: Timer { remaining_ms: Self::spec_walk_duration_ms(map, terrain_manifest, pos) },
                just_started: true,
            }
        } else {
            Self::spec_idle()
        }
    }

    /// The direction that leads from `pos` to the adjacent tile `target`.
    pub open spec fn spec_direction_to(pos: TilePos, target: TilePos) -> Direction {
        choose|d: Direction| pos.spec_neighbor(d) == target
    }

    /// Walking toward the adjacent tile `target` when already facing it,
    /// else turning toward it.
    pub open spec fn spec_move_or_spin(
        pos: TilePos,
        target: TilePos,
        facing: Facing,
        map: MapGeometry,
        terrain_manifest: TerrainManifest,
    ) -> CurrentAction {
        let required = Self::spec_direction_to(pos, target);
        if required == facing.direction {
            Self::spec_move_forward(pos, facing, map, terrain_manifest)
        } else {
            Self::spec_spin_towards(facing, required)
        }
    }

    /// Picking `item_id` up from `output_entity` on the adjacent tile
    /// `output_tile_pos` when already facing it, else turning toward it.
    pub open spec fn spec_pickup(
        item_id: ItemId,
        output_entity: Entity,
        facing: Facing,
        pos: TilePos,
        output_tile_pos: TilePos,
    ) -> CurrentAction {
        let required = Self::spec_direction_to(pos, output_tile_pos);
        if required == facing.direction {
            CurrentAction {
                action: UnitAction::PickUp { item_id, output_entity },
                timer: Timer { remaining_ms: PICKUP_DURATION_MS },
                just_started: true,
            }
        } else {
            Self::spec_spin_towards(facing, required)
        }
    }

    /// Dropping `item_id` off at `input_entity` on the adjacent tile
    /// `input_tile_pos` when already facing it, else turning toward it.
    pub open spec fn spec_dropoff(
        item_id: ItemId,
        input_entity: Entity,
        facing: Facing,
        pos: TilePos,
        input_tile_pos: TilePos,
    ) -> CurrentAction {
        let required = Self::spec_direction_to(pos, input_tile_pos);
        if required == facing.direction {
            CurrentAction {
                action: UnitAction::DropOff { item_id, input_entity },
                timer: Timer { remaining_ms: DROPOFF_DURATION_MS },
                just_started: true,
            }
        } else {
            Self::spec_spin_towards(facing, required)
        }
    }

    /// Eating the held item.
    pub open spec fn spec_eat() -> CurrentAction {
        CurrentAction {
            action: UnitAction::Eat,
            timer: Timer { remaining_ms: EAT_DURATION_MS },
            just_started: true,
        }
    }

    /// Working at `structure_entity`.
    pub open spec fn spec_work(structure_entity: Entity) -> CurrentAction {
        CurrentAction {
            action: UnitAction::Work { structure_entity },
            timer: Timer { remaining_ms: WORK_DURATION_MS },
            just_started: true,
        }
    }

    /// Demolishing `structure_entity`.
    pub open spec fn spec_demolish(structure_entity: Entity) -> CurrentAction {
        CurrentAction {
            action: UnitAction::Demolish { structure_entity },
            timer: Timer { remaining_ms: DEMOLISH_DURATION_MS },
            just_started: true,
        }
    }

    /// Abandoning the held item.
    pub open spec fn spec_abandon() -> CurrentAction {
        CurrentAction {
            action: UnitAction::Abandon,
            timer: Timer { remaining_ms: IDLE_DURATION_MS },
            just_started: true,
        }
    }

    /// Pretty formatting for this type: the action's text and the time
    /// remaining in seconds, with two decimal places.
    pub fn display(&self, item_manifest: &ItemManifest) -> (result: String)
        requires
            item_manifest.wf(),
            spec_display_items_known(self.action, *item_manifest),
        ensures
            result@ == spec_action_display(self.action, *item_manifest) + "\nRemaining: "@
                + crate::text::spec_decimal(self.timer.remaining_ms as int / 1000) + "."@
                + crate::text::spec_digit((self.timer.remaining_ms as int % 1000) / 100)
                + crate::text::spec_digit(((self.timer.remaining_ms as int % 1000) / 10) % 10)
                + " s."@,
    {
        let mut text = self.action.display(item_manifest);
        text.append("\nRemaining: ");
        let seconds = crate::text::u64_to_string(self.timer.remaining_ms / 1000);
        text.append(seconds.as_str());
        text.append(".");
        let tenths = crate::text::u64_to_string((self.timer.remaining_ms % 1000) / 100);
        text.append(tenths.as_str());
        let hundredths = crate::text::u64_to_string(((self.timer.remaining_ms % 1000) / 10) % 10);
        text.append(hundredths.as_str());
        text.append(" s.");
        text
    }

    /// Get the action that the unit is currently undertaking.
    pub fn action(&self) -> (result: &UnitAction)
        ensures
            *result == self.action,
    {
        &self.action
    }

    /// Have we waited long enough to perform this action?
    pub fn finished(&self) -> (result: bool)
        ensures
            result == self.timer.spec_finished(),
    {
        self.timer.finished()
    }

    /// Wait, as there is nothing to be done.
    pub fn idle() -> (result: CurrentAction)
        ensures
            result == Self::spec_idle(),
    {
        CurrentAction {
            action: UnitAction::Idle,
            timer: Timer::from_millis(IDLE_DURATION_MS),
            just_started: true,
        }
    }

    /// Spins 60 degrees left or right.
    pub fn spin(rotation_direction: RotationDirection) -> (result: CurrentAction)
        ensures
            result == Self::spec_spin(rotation_direction),
    {
        CurrentAction {
            action: UnitAction::Spin { rotation_direction },
            timer: Timer::from_millis(SPIN_DURATION_MS),
            just_started: true,
        }
    }

    /// Rotate to face the `required_direction`, taking the shorter way
    /// around; a tie (or already facing it) turns left.
    pub fn spin_towards(facing: &Facing, required_direction: Direction) -> (result: CurrentAction)
        ensures
            result == Self::spec_spin_towards(*facing, required_direction),
    {
        let from: usize = match facing.direction {
            Direction::East => 0,
            Direction::NorthEast => 1,
            Direction::NorthWest => 2,
            Direction::West => 3,
            Direction::SouthWest => 4,
            Direction::SouthEast => 5,
        };
        let to: usize = match required_direction {
            Direction::East => 0,
            Direction::NorthEast => 1,
            Direction::NorthWest => 2,
            Direction::West => 3,
            Direction::SouthWest => 4,
            Direction::SouthEast => 5,
        };
        let l = (to + 6 - from) % 6;
        if l == 0 || l <= 3 {
            CurrentAction::spin(RotationDirection::Left)
        } else {
            CurrentAction::spin(RotationDirection::Right)
        }
    }

    /// Spins 60 degrees in a direction drawn from `rng`.
    pub fn random_spin(rng: &mut rand::rngs::StdRng) -> (result: CurrentAction)
        ensures
            result == Self::spec_spin(RotationDirection::Left) || result == Self::spec_spin(
                RotationDirection::Right,
            ),
    {
        let side = choose_index(rng, 2);
        if side == 0 {
            CurrentAction::spin(RotationDirection::Left)
        } else {
            CurrentAction::spin(RotationDirection::Right)
        }
    }

    /// Move toward the tile this unit is facing if able; idle when the tile
    /// ahead cannot be walked onto.
    pub fn move_forward(
        unit_tile_pos: TilePos,
        facing: &Facing,
        map_geometry: &MapGeometry,
        terrain_manifest: &TerrainManifest,
    ) -> (result: CurrentAction)
        requires
            tile_in_range(unit_tile_pos),
            map_geometry.wf(),
            terrain_manifest.wf(),
        ensures
            result == Self::spec_move_forward(
                unit_tile_pos,
                *facing,
                *map_geometry,
                *terrain_manifest,
            ),
    {
        let target_tile = unit_tile_pos.neighbor(facing.direction);
        let speed = match map_geometry.get_terrain(unit_tile_pos) {
            Some(terrain_id) => terrain_manifest.walking_speed_percent(terrain_id),
            None => crate::terrain::STANDARD_WALKING_SPEED,
        };
        let walking_duration_ms = (BASE_WALKING_DURATION_MS * 100) / speed;
        if map_geometry.is_passable(target_tile) {
            CurrentAction {
                action: UnitAction::MoveForward,
                timer: Timer::from_millis(walking_duration_ms),
                just_started: true,
            }
        } else {
            CurrentAction::idle()
        }
    }

    /// Attempt to move toward the adjacent `target_tile_pos`: walk when
    /// already facing it, else turn toward it.
    pub fn move_or_spin(
        unit_tile_pos: TilePos,
        target_tile_pos: TilePos,
        facing: &Facing,
        terrain_manifest: &TerrainManifest,
        map_geometry: &MapGeometry,
    ) -> (result: CurrentAction)
        requires
            tile_in_range(unit_tile_pos),
            unit_tile_pos.spec_is_adjacent(target_tile_pos),
            map_geometry.wf(),
            terrain_manifest.wf(),
        ensures
            result == Self::spec_move_or_spin(
                unit_tile_pos,
                target_tile_pos,
                *facing,
                *map_geometry,
                *terrain_manifest,
            ),
    {
        let required_direction = unit_tile_pos.direction_to(target_tile_pos);
        proof {
            lemma_direction_to_unique(unit_tile_pos, target_tile_pos, required_direction);
        }
        if required_direction == facing.direction {
            CurrentAction::move_forward(unit_tile_pos, facing, map_geometry, terrain_manifest)
        } else {
            CurrentAction::spin_towards(facing, required_direction)
        }
    }

    /// Picks up the `item_id` at the `output_entity`, after turning to face
    /// it if need be.
    pub fn pickup(
        item_id: ItemId,
        output_entity: Entity,
        facing: &Facing,
        unit_tile_pos: TilePos,
        output_tile_pos: TilePos,
    ) -> (result: CurrentAction)
        requires
            tile_in_range(unit_tile_pos),
            unit_tile_pos.spec_is_adjacent(output_tile_pos),
        ensures
            result == Self::spec_pickup(
                item_id,
                output_entity,
                *facing,
                unit_tile_pos,
                output_tile_pos,
            ),
    {
        let required_direction = unit_tile_pos.direction_to(output_tile_pos);
        proof {
            lemma_direction_to_unique(unit_tile_pos, output_tile_pos, required_direction);
        }
        if required_direction == facing.direction {
            CurrentAction {
                action: UnitAction::PickUp { item_id, output_entity },
                timer: Timer::from_millis(PICKUP_DURATION_MS),
                just_started: true,
            }
        } else {
            CurrentAction::spin_towards(facing, required_direction)
        }
    }

    /// Drops off the `item_id` at the `input_entity`, after turning to face
    /// it if need be.
    pub fn dropoff(
        item_id: ItemId,
        input_entity: Entity,
        facing: &Facing,
        unit_tile_pos: TilePos,
        input_tile_pos: TilePos,
    ) -> (result: CurrentAction)
        requires
            tile_in_range(unit_tile_pos),
            unit_tile_pos.spec_is_adjacent(input_tile_pos),
        ensures
            result == Self::spec_dropoff(
                item_id,
                input_entity,
                *facing,
                unit_tile_pos,
                input_tile_pos,
            ),
    {
        let required_direction = unit_tile_pos.direction_to(input_tile_pos);
        proof {
            lemma_direction_to_unique(unit_tile_pos, input_tile_pos, required_direction);
        }
        if required_direction == facing.direction {
            CurrentAction {
                action: UnitAction::DropOff { item_id, input_entity },
                timer: Timer::from_millis(DROPOFF_DURATION_MS),
                just_started: true,
            }
        } else {
            CurrentAction::spin_towards(facing, required_direction)
        }
    }

    /// Eats one of the currently held item.
    pub fn eat() -> (result: CurrentAction)
        ensures
            result == Self::spec_eat(),
    {
        CurrentAction {
            action: UnitAction::Eat,
            timer: Timer::from_millis(EAT_DURATION_MS),
            just_started: true,
        }
    }

    /// Work at the specified structure.
    pub fn work(structure_entity: Entity) -> (result: CurrentAction)
        ensures
            result == Self::spec_work(structure_entity),
    {
        CurrentAction {
            action: UnitAction::Work { structure_entity },
            timer: Timer::from_millis(WORK_DURATION_MS),
            just_started: true,
        }
    }

    /// Demolish the specified structure.
    pub fn demolish(structure_entity: Entity) -> (result: CurrentAction)
        ensures
            result == Self::spec_demolish(structure_entity),
    {
        CurrentAction {
            action: UnitAction::Demolish { structure_entity },
            timer: Timer::from_millis(DEMOLISH_DURATION_MS),
            just_started: true,
        }
    }

    /// Abandon whatever is currently held.
    pub fn abandon() -> (result: CurrentAction)
        ensures
            result == Self::spec_abandon(),
    {
        CurrentAction {
            action: UnitAction::Abandon,
            timer: Timer::from_millis(IDLE_DURATION_MS),
            just_started: true,
        }
    }
}

/// Each neighbor of a tile lies in a distinct direction, so the direction to
/// an adjacent tile is unique.
pub proof fn lemma_direction_to_unique(pos: TilePos, target: TilePos, d: Direction)
    requires
        tile_in_range(pos),
        pos.spec_neighbor(d) == target,
    ensures
        CurrentAction::spec_direction_to(pos, target) == d,
{
    let c = CurrentAction::spec_direction_to(pos, target);
    assert(pos.spec_neighbor(c) == target);
}

/// Whether the structure on `tile_pos` offers at least one `item_id` for
/// pickup, from its output inventory or, lacking one, its storage.
pub open spec fn spec_is_pickup_source(world: World, item_id: ItemId, tile_pos: TilePos) -> bool {
    match world.map.spec_structure_at(tile_pos) {
        None => false,
        Some(e) => match world.spec_entity(e) {
            None => false,
            Some(record) => match record.output {
                Some(o) => spec_count(o.inventory.slots@, item_id) > 0,
                None => match record.storage {
                    Some(s) => spec_count(s.inventory.slots@, item_id) > 0,
                    None => false,
                },
            },
        },
    }
}

/// The stocked neighbors found scanning the first `k` directions: each
/// neighboring structure offering `item_id`, in direction order.
pub open spec fn spec_pickup_sources(
    world: World,
    item_id: ItemId,
    pos: TilePos,
    k: int,
) -> Seq<(Entity, TilePos)>
    decreases k,
{
    if k <= 0 {
        Seq::empty()
    } else {
        let prev = spec_pickup_sources(world, item_id, pos, k - 1);
        let t = pos.spec_neighbor(Direction::spec_from_index(k - 1));
        if spec_is_pickup_source(world, item_id, t) {
            prev.push((crate::geometry::spec_occupant(world.map.structures@, t), t))
        } else {
            prev
        }
    }
}

/// Whether the ghost on `tile_pos` can still receive `item_id` into its
/// reserved input; a ghost marked for demolition receives nothing.
pub open spec fn spec_is_ghost_receptacle(world: World, item_id: ItemId, tile_pos: TilePos) -> bool {
    match world.map.spec_ghost_at(tile_pos) {
        None => false,
        Some(e) => match world.spec_entity(e) {
            None => false,
            Some(record) => !record.marked_for_demolition && match record.input {
                Some(i) => spec_slot_space(i.inventory.slots@, item_id) > 0,
                None => false,
            },
        },
    }
}

/// Whether the structure on `tile_pos` can still receive `item_id`, into
/// its reserved input or, lacking one, its general storage; a structure
/// marked for demolition receives nothing.
pub open spec fn spec_is_storage_receptacle(
    world: World,
    item_manifest: ItemManifest,
    item_id: ItemId,
    tile_pos: TilePos,
) -> bool {
    match world.map.spec_structure_at(tile_pos) {
        None => false,
        Some(e) => match world.spec_entity(e) {
            None => false,
            Some(record) => !record.marked_for_demolition && match record.input {
                Some(i) => spec_slot_space(i.inventory.slots@, item_id) > 0,
                None => match record.storage {
                    Some(s) => s.inventory.spec_space_for(
                        item_id,
                        item_manifest.spec_stack_size(item_id) as int,
                        true,
                    ) > 0,
                    None => false,
                },
            },
        },
    }
}

/// Whether the structure on `tile_pos` can still receive a delivery of
/// `item_id` into a reserved input; general storage deliberately does not
/// count, a delivery must reach a true input.
pub open spec fn spec_is_delivery_receptacle(
    world: World,
    item_id: ItemId,
    tile_pos: TilePos,
) -> bool {
    match world.map.spec_structure_at(tile_pos) {
        None => false,
        Some(e) => match world.spec_entity(e) {
            None => false,
            Some(record) => !record.marked_for_demolition && match record.input {
                Some(i) => spec_slot_space(i.inventory.slots@, item_id) > 0,
                None => false,
            },
        },
    }
}

/// The receiving neighbors for storing found scanning the first `k`
/// directions: for each direction the qualifying ghost, then the qualifying
/// structure.
pub open spec fn spec_storage_receptacles(
    world: World,
    item_manifest: ItemManifest,
    item_id: ItemId,
    pos: TilePos,
    k: int,
) -> Seq<(Entity, TilePos)>
    decreases k,
{
    if k <= 0 {
        Seq::empty()
    } else {
        let prev = spec_storage_receptacles(world, item_manifest, item_id, pos, k - 1);
        let t = pos.spec_neighbor(Direction::spec_from_index(k - 1));
        let with_ghost = if spec_is_ghost_receptacle(world, item_id, t) {
            prev.push((crate::geometry::spec_occupant(world.map.ghosts@, t), t))
        } else {
            prev
        };
        if spec_is_storage_receptacle(world, item_manifest, item_id, t) {
            with_ghost.push((crate::geometry::spec_occupant(world.map.structures@, t), t))
        } else {
            with_ghost
        }
    }
}

/// The receiving neighbors for delivering found scanning the first `k`
/// directions: for each direction the qualifying ghost, then the qualifying
/// structure with a true input.
pub open spec fn spec_delivery_receptacles(
    world: World,
    item_id: ItemId,
    pos: TilePos,
    k: int,
) -> Seq<(Entity, TilePos)>
    decreases k,
{
    if k <= 0 {
        Seq::empty()
    } else {
        let prev = spec_delivery_receptacles(world, item_id, pos, k - 1);
        let t = pos.spec_neighbor(Direction::spec_from_index(k - 1));
        let with_ghost = if spec_is_ghost_receptacle(world, item_id, t) {
            prev.push((crate::geometry::spec_occupant(world.map.ghosts@, t), t))
        } else {
            prev
        };
        if spec_is_delivery_receptacle(world, item_id, t) {
            with_ghost.push((crate::geometry::spec_occupant(world.map.structures@, t), t))
        } else {
            with_ghost
        }
    }
}

/// The object `e` has a reserved input with room for `item_id` and is not
/// marked for demolition: a legitimate delivery target.
pub open spec fn spec_is_true_input_target(world: World, item_id: ItemId, e: Entity) -> bool {
    match world.spec_entity(e) {
        Some(record) => !record.marked_for_demolition && match record.input {
            Some(i) => spec_slot_space(i.inventory.slots@, item_id) > 0,
            None => false,
        },
        None => false,
    }
}

/// Deliveries only ever target true inputs: every candidate the delivery
/// scan collects — ghost or structure — has a reserved input with room for
/// the item; a generic storage container is never among them.
pub proof fn lemma_delivery_targets_true_inputs(
    world: World,
    item_id: ItemId,
    pos: TilePos,
    k: int,
)
    ensures
        forall|i: int|
            0 <= i < spec_delivery_receptacles(world, item_id, pos, k).len()
                ==> spec_is_true_input_target(
                world,
                item_id,
                #[trigger] spec_delivery_receptacles(world, item_id, pos, k)[i].0,
            ),
    decreases k,
{
    if k > 0 {
        lemma_delivery_targets_true_inputs(world, item_id, pos, k - 1);
        let prev = spec_delivery_receptacles(world, item_id, pos, k - 1);
        let t = pos.spec_neighbor(Direction::spec_from_index(k - 1));
        let cur = spec_delivery_receptacles(world, item_id, pos, k);
        assert forall|i: int| 0 <= i < cur.len() implies spec_is_true_input_target(
            world,
            item_id,
            cur[i].0,
        ) by {
            if i < prev.len() {
                assert(cur[i] == prev[i]);
            }
        }
    }
}

/// The workplaces of variety `structure_id` that still need workers among
/// the first `k` neighbor directions.
pub open spec fn spec_workplace_candidates(
    world: World,
    structure_id: StructureId,
    pos: TilePos,
    k: int,
) -> Seq<(Entity, TilePos)>
    decreases k,
{
    if k <= 0 {
        Seq::empty()
    } else {
        let prev = spec_workplace_candidates(world, structure_id, pos, k - 1);
        let t = pos.spec_neighbor(Direction::spec_from_index(k - 1));
        match world.spec_needs_work(t, structure_id) {
            Some(w) => prev.push((w, t)),
            None => prev,
        }
    }
}

/// The demolition sites of variety `structure_id` among the first `k`
/// neighbor directions.
pub open spec fn spec_demolition_candidates(
    world: World,
    structure_id: StructureId,
    pos: TilePos,
    k: int,
) -> Seq<(Entity, TilePos)>
    decreases k,
{
    if k <= 0 {
        Seq::empty()
    } else {
        let prev = spec_demolition_candidates(world, structure_id, pos, k - 1);
        let t = pos.spec_neighbor(Direction::spec_from_index(k - 1));
        match world.spec_needs_demolition(t, structure_id) {
            Some(w) => prev.push((w, t)),
            None => prev,
        }
    }
}

/// What `find_item` may return: a pickup aimed at one of the stocked
/// neighbors (chosen at random), else a step up the gradient, else idling.
pub open spec fn spec_find_item_post(
    world: World,
    signals: Signals,
    terrain_manifest: TerrainManifest,
    item_id: ItemId,
    pos: TilePos,
    facing: Facing,
    goal: Goal,
    result: CurrentAction,
) -> bool {
    let sources = spec_pickup_sources(world, item_id, pos, 6);
    if sources.len() > 0 {
        exists|i: int|
            0 <= i < sources.len() && result == CurrentAction::spec_pickup(
                item_id,
                sources[i].0,
                facing,
                pos,
                sources[i].1,
            )
    } else {
        match signals.spec_upstream(&world.map, pos, goal) {
            Some(t) => result == CurrentAction::spec_move_or_spin(
                pos,
                t,
                facing,
                world.map,
                terrain_manifest,
            ),
            None => result == CurrentAction::spec_idle(),
        }
    }
}

/// What `find_storage` may return: a dropoff aimed at one of the receiving
/// neighbors (chosen at random), else a step up the gradient, else idling.
pub open spec fn spec_find_storage_post(
    world: World,
    signals: Signals,
    terrain_manifest: TerrainManifest,
    item_manifest: ItemManifest,
    item_id: ItemId,
    pos: TilePos,
    facing: Facing,
    goal: Goal,
    result: CurrentAction,
) -> bool {
    let receptacles = spec_storage_receptacles(world, item_manifest, item_id, pos, 6);
    if receptacles.len() > 0 {
        exists|i: int|
            0 <= i < receptacles.len() && result == CurrentAction::spec_dropoff(
                item_id,
                receptacles[i].0,
                facing,
                pos,
                receptacles[i].1,
            )
    } else {
        match signals.spec_upstream(&world.map, pos, goal) {
            Some(t) => result == CurrentAction::spec_move_or_spin(
                pos,
                t,
                facing,
                world.map,
                terrain_manifest,
            ),
            None => result == CurrentAction::spec_idle(),
        }
    }
}

/// What `find_delivery` may return: a dropoff aimed at one of the neighbors
/// with a true input (chosen at random), else a step up the gradient, else
/// idling.  A generic storage neighbor is never targeted.
pub open spec fn spec_find_delivery_post(
    world: World,
    signals: Signals,
    terrain_manifest: TerrainManifest,
    item_id: ItemId,
    pos: TilePos,
    facing: Facing,
    goal: Goal,
    result: CurrentAction,
) -> bool {
    let receptacles = spec_delivery_receptacles(world, item_id, pos, 6);
    if receptacles.len() > 0 {
        exists|i: int|
            0 <= i < receptacles.len() && result == CurrentAction::spec_dropoff(
                item_id,
                receptacles[i].0,
                facing,
                pos,
                receptacles[i].1,
            )
    } else {
        match signals.spec_upstream(&world.map, pos, goal) {
            Some(t) => result == CurrentAction::spec_move_or_spin(
                pos,
                t,
                facing,
                world.map,
                terrain_manifest,
            ),
            None => result == CurrentAction::spec_idle(),
        }
    }
}

/// What `find_workplace` may return: work at the tile ahead, else at the
/// unit's own tile, else a step toward one of the needy neighbors (chosen
/// at random), else a step up the gradient, else idling.
pub open spec fn spec_find_workplace_post(
    world: World,
    signals: Signals,
    terrain_manifest: TerrainManifest,
    structure_id: StructureId,
    pos: TilePos,
    facing: Facing,
    result: CurrentAction,
) -> bool {
    let ahead = pos.spec_neighbor(facing.direction);
    match world.spec_needs_work(ahead, structure_id) {
        Some(w) => result == CurrentAction::spec_work(w),
        None => match world.spec_needs_work(pos, structure_id) {
            Some(w) => result == CurrentAction::spec_work(w),
            None => {
                let workplaces = spec_workplace_candidates(world, structure_id, pos, 6);
                if workplaces.len() > 0 {
                    exists|i: int|
                        0 <= i < workplaces.len() && result == CurrentAction::spec_move_or_spin(
                            pos,
                            workplaces[i].1,
                            facing,
                            world.map,
                            terrain_manifest,
                        )
                } else {
                    match signals.spec_upstream(&world.map, pos, Goal::Work(structure_id)) {
                        Some(t) => result == CurrentAction::spec_move_or_spin(
                            pos,
                            t,
                            facing,
                            world.map,
                            terrain_manifest,
                        ),
                        None => result == CurrentAction::spec_idle(),
                    }
                }
            },
        },
    }
}

/// What `find_demolition_site` may return: demolition at the tile ahead,
/// else at the unit's own tile, else a step toward one of the marked
/// neighbors (chosen at random), else a step up the gradient, else idling.
pub open spec fn spec_find_demolition_post(
    world: World,
    signals: Signals,
    terrain_manifest: TerrainManifest,
    structure_id: StructureId,
    pos: TilePos,
    facing: Facing,
    result: CurrentAction,
) -> bool {
    let ahead = pos.spec_neighbor(facing.direction);
    match world.spec_needs_demolition(ahead, structure_id) {
        Some(w) => result == CurrentAction::spec_demolish(w),
        None => match world.spec_needs_demolition(pos, structure_id) {
            Some(w) => result == CurrentAction::spec_demolish(w),
            None => {
                let demo_sites = spec_demolition_candidates(world, structure_id, pos, 6);
                if demo_sites.len() > 0 {
                    exists|i: int|
                        0 <= i < demo_sites.len() && result == CurrentAction::spec_move_or_spin(
                            pos,
                            demo_sites[i].1,
                            facing,
                            world.map,
                            terrain_manifest,
                        )
                } else {
                    match signals.spec_upstream(&world.map, pos, Goal::Demolish(structure_id)) {
                        Some(t) => result == CurrentAction::spec_move_or_spin(
                            pos,
                            t,
                            facing,
                            world.map,
                            terrain_manifest,
                        ),
                        None => result == CurrentAction::spec_idle(),
                    }
                }
            },
        },
    }
}

impl CurrentAction {
    /// Attempt to locate a source of the provided `item_id` among the six
    /// neighboring tiles; fall back to the signal gradient, then to idling.
    pub fn find_item(
        item_id: ItemId,
        unit_tile_pos: TilePos,
        facing: &Facing,
        goal: &Goal,
        signals: &Signals,
        rng: &mut rand::rngs::StdRng,
        terrain_manifest: &TerrainManifest,
        world: &World,
    ) -> (result: CurrentAction)
        requires
            world.wf(),
            signals.wf(),
            terrain_manifest.wf(),
            tile_in_range(unit_tile_pos),
        ensures
            spec_find_item_post(
                *world,
                *signals,
                *terrain_manifest,
                item_id,
                unit_tile_pos,
                *facing,
                *goal,
                result,
            ),
    {
        let neighboring_tiles = unit_tile_pos.all_neighbors();
        let mut sources: Vec<(Entity, TilePos)> = Vec::new();
        let mut k: usize = 0;
        while k < 6
            invariant
                world.wf(),
                tile_in_range(unit_tile_pos),
                neighboring_tiles@.len() == 6,
                forall|j: int|
                    0 <= j < 6 ==> neighboring_tiles@[j] == unit_tile_pos.spec_neighbor(
                        Direction::spec_from_index(j),
                    ),
                k <= 6,
                sources@ == spec_pickup_sources(*world, item_id, unit_tile_pos, k as int),
                forall|m: int|
                    0 <= m < sources@.len() ==> unit_tile_pos.spec_is_adjacent(
                        (#[trigger] sources@[m]).1,
                    ),
            decreases 6 - k,
        {
            let tile_pos = neighboring_tiles[k];
            proof {
                assert(unit_tile_pos.spec_neighbor(Direction::spec_from_index(k as int))
                    == tile_pos);
            }
            match world.map.get_structure(tile_pos) {
                Some(structure_entity) => {
                    match world.find_entity(structure_entity) {
                        Some(i) => {
                            let record = &world.entities[i];
                            let stocked = match &record.output {
                                Some(output_inventory) => output_inventory.item_count(item_id) > 0,
                                None => match &record.storage {
                                    Some(storage_inventory) => storage_inventory.item_count(
                                        item_id,
                                    ) > 0,
                                    None => false,
                                },
                            };
                            if stocked {
                                sources.push((structure_entity, tile_pos));
                            }
                        },
                        None => {},
                    }
                },
                None => {},
            }
            k += 1;
        }
        if sources.len() > 0 {
            let chosen = choose_index(rng, sources.len());
            let (output_entity, output_tile_pos) = sources[chosen];
            CurrentAction::pickup(item_id, output_entity, facing, unit_tile_pos, output_tile_pos)
        } else {
            match signals.upstream(unit_tile_pos, goal, &world.map) {
                Some(upstream_tile) => CurrentAction::move_or_spin(
                    unit_tile_pos,
                    upstream_tile,
                    facing,
                    terrain_manifest,
                    &world.map,
                ),
                None => CurrentAction::idle(),
            }
        }
    }

    /// Attempt to locate a place to put an item of type `item_id`: a ghost
    /// with reserved input space or a structure with input or storage space
    /// among the six neighbors; fall back to the signal gradient, then to
    /// idling.
    pub fn find_storage(
        item_id: ItemId,
        unit_tile_pos: TilePos,
        facing: &Facing,
        goal: &Goal,
        signals: &Signals,
        rng: &mut rand::rngs::StdRng,
        terrain_manifest: &TerrainManifest,
        item_manifest: &ItemManifest,
        world: &World,
    ) -> (result: CurrentAction)
        requires
            world.wf(),
            signals.wf(),
            terrain_manifest.wf(),
            item_manifest.wf(),
            tile_in_range(unit_tile_pos),
        ensures
            spec_find_storage_post(
                *world,
                *signals,
                *terrain_manifest,
                *item_manifest,
                item_id,
                unit_tile_pos,
                *facing,
                *goal,
                result,
            ),
    {
        let neighboring_tiles = unit_tile_pos.all_neighbors();
        let mut receptacles: Vec<(Entity, TilePos)> = Vec::new();
        let mut k: usize = 0;
        while k < 6
            invariant
                world.wf(),
                item_manifest.wf(),
                tile_in_range(unit_tile_pos),
                neighboring_tiles@.len() == 6,
                forall|j: int|
                    0 <= j < 6 ==> neighboring_tiles@[j] == unit_tile_pos.spec_neighbor(
                        Direction::spec_from_index(j),
                    ),
                k <= 6,
                receptacles@ == spec_storage_receptacles(
                    *world,
                    *item_manifest,
                    item_id,
                    unit_tile_pos,
                    k as int,
                ),
                forall|m: int|
                    0 <= m < receptacles@.len() ==> unit_tile_pos.spec_is_adjacent(
                        (#[trigger] receptacles@[m]).1,
                    ),
            decreases 6 - k,
        {
            let tile_pos = neighboring_tiles[k];
            proof {
                assert(unit_tile_pos.spec_neighbor(Direction::spec_from_index(k as int))
                    == tile_pos);
            }
            match world.map.get_ghost(tile_pos) {
                Some(ghost_entity) => {
                    match world.find_entity(ghost_entity) {
                        Some(i) => {
                            let record = &world.entities[i];
                            let receiving = !record.marked_for_demolition && (
                            match &record.input {
                                Some(input_inventory) => {
                                    input_inventory.remaining_reserved_space_for_item(item_id) > 0
                                },
                                None => false,
                            });
                            if receiving {
                                receptacles.push((ghost_entity, tile_pos));
                            }
                        },
                        None => {},
                    }
                },
                None => {},
            }
            match world.map.get_structure(tile_pos) {
                Some(structure_entity) => {
                    match world.find_entity(structure_entity) {
                        Some(i) => {
                            let record = &world.entities[i];
                            let receiving = !record.marked_for_demolition && (
                            match &record.input {
                                Some(input_inventory) => {
                                    input_inventory.remaining_reserved_space_for_item(item_id) > 0
                                },
                                None => match &record.storage {
                                    Some(storage_inventory) => {
                                        storage_inventory.remaining_space_for_item(
                                            item_id,
                                            item_manifest,
                                        ) > 0
                                    },
                                    None => false,
                                },
                            });
                            if receiving {
                                receptacles.push((structure_entity, tile_pos));
                            }
                        },
                        None => {},
                    }
                },
                None => {},
            }
            k += 1;
        }
        if receptacles.len() > 0 {
            let chosen = choose_index(rng, receptacles.len());
            let (input_entity, input_tile_pos) = receptacles[chosen];
            CurrentAction::dropoff(item_id, input_entity, facing, unit_tile_pos, input_tile_pos)
        } else {
            match signals.upstream(unit_tile_pos, goal, &world.map) {
                Some(upstream_tile) => CurrentAction::move_or_spin(
                    unit_tile_pos,
                    upstream_tile,
                    facing,
                    terrain_manifest,
                    &world.map,
                ),
                None => CurrentAction::idle(),
            }
        }
    }

    /// Attempt to locate a place to deliver an item of type `item_id`: a
    /// ghost with reserved input space or a structure with a true input
    /// among the six neighbors — generic storage is deliberately excluded,
    /// the goal is to complete a delivery.  Falls back to the signal
    /// gradient, then to idling.
    pub fn find_delivery(
        item_id: ItemId,
        unit_tile_pos: TilePos,
        facing: &Facing,
        goal: &Goal,
        signals: &Signals,
        rng: &mut rand::rngs::StdRng,
        terrain_manifest: &TerrainManifest,
        world: &World,
    ) -> (result: CurrentAction)
        requires
            world.wf(),
            signals.wf(),
            terrain_manifest.wf(),
            tile_in_range(unit_tile_pos),
        ensures
            spec_find_delivery_post(
                *world,
                *signals,
                *terrain_manifest,
                item_id,
                unit_tile_pos,
                *facing,
                *goal,
                result,
            ),
    {
        let neighboring_tiles = unit_tile_pos.all_neighbors();
        let mut receptacles: Vec<(Entity, TilePos)> = Vec::new();
        let mut k: usize = 0;
        while k < 6
            invariant
                world.wf(),
                tile_in_range(unit_tile_pos),
                neighboring_tiles@.len() == 6,
                forall|j: int|
                    0 <= j < 6 ==> neighboring_tiles@[j] == unit_tile_pos.spec_neighbor(
                        Direction::spec_from_index(j),
                    ),
                k <= 6,
                receptacles@ == spec_delivery_receptacles(
                    *world,
                    item_id,
                    unit_tile_pos,
                    k as int,
                ),
                forall|m: int|
                    0 <= m < receptacles@.len() ==> unit_tile_pos.spec_is_adjacent(
                        (#[trigger] receptacles@[m]).1,
                    ),
            decreases 6 - k,
        {
            let tile_pos = neighboring_tiles[k];
            proof {
                assert(unit_tile_pos.spec_neighbor(Direction::spec_from_index(k as int))
                    == tile_pos);
            }
            match world.map.get_ghost(tile_pos) {
                Some(ghost_entity) => {
                    match world.find_entity(ghost_entity) {
                        Some(i) => {
                            let record = &world.entities[i];
                            let receiving = !record.marked_for_demolition && (
                            match &record.input {
                                Some(input_inventory) => {
                                    input_inventory.remaining_reserved_space_for_item(item_id) > 0
                                },
                                None => false,
                            });
                            if receiving {
                                receptacles.push((ghost_entity, tile_pos));
                            }
                        },
                        None => {},
                    }
                },
                None => {},
            }
            // We deliberately avoid storage locations here: the goal is to
            // complete a delivery.
            match world.map.get_structure(tile_pos) {
                Some(structure_entity) => {
                    match world.find_entity(structure_entity) {
                        Some(i) => {
                            let record = &world.entities[i];
                            let receiving = !record.marked_for_demolition && (
                            match &record.input {
                                Some(input_inventory) => {
                                    input_inventory.remaining_reserved_space_for_item(item_id) > 0
                                },
                                None => false,
                            });
                            if receiving {
                                receptacles.push((structure_entity, tile_pos));
                            }
                        },
                        None => {},
                    }
                },
                None => {},
            }
            k += 1;
        }
        if receptacles.len() > 0 {
            let chosen = choose_index(rng, receptacles.len());
            let (input_entity, input_tile_pos) = receptacles[chosen];
            CurrentAction::dropoff(item_id, input_entity, facing, unit_tile_pos, input_tile_pos)
        } else {
            match signals.upstream(unit_tile_pos, goal, &world.map) {
                Some(upstream_tile) => CurrentAction::move_or_spin(
                    unit_tile_pos,
                    upstream_tile,
                    facing,
                    terrain_manifest,
                    &world.map,
                ),
                None => CurrentAction::idle(),
            }
        }
    }

    /// Attempt to find a structure of type `structure_id` to perform work
    /// at: the tile ahead first, then the unit's own tile, then any
    /// neighbor; fall back to the signal gradient, then to idling.
    pub fn find_workplace(
        structure_id: StructureId,
        unit_tile_pos: TilePos,
        facing: &Facing,
        signals: &Signals,
        rng: &mut rand::rngs::StdRng,
        terrain_manifest: &TerrainManifest,
        world: &World,
    ) -> (result: CurrentAction)
        requires
            world.wf(),
            signals.wf(),
            terrain_manifest.wf(),
            tile_in_range(unit_tile_pos),
        ensures
            spec_find_workplace_post(
                *world,
                *signals,
                *terrain_manifest,
                structure_id,
                unit_tile_pos,
                *facing,
                result,
            ),
    {
        let ahead = unit_tile_pos.neighbor(facing.direction);
        match world.needs_work(ahead, structure_id) {
            Some(workplace) => {
                return CurrentAction::work(workplace);
            },
            None => {},
        }
        // Let units work even while standing on the structure: a unit can
        // easily end up on top of the very ghost it is trying to build.
        match world.needs_work(unit_tile_pos, structure_id) {
            Some(workplace) => {
                return CurrentAction::work(workplace);
            },
            None => {},
        }
        let neighboring_tiles = unit_tile_pos.all_neighbors();
        let mut workplaces: Vec<(Entity, TilePos)> = Vec::new();
        let mut k: usize = 0;
        while k < 6
            invariant
                world.wf(),
                tile_in_range(unit_tile_pos),
                neighboring_tiles@.len() == 6,
                forall|j: int|
                    0 <= j < 6 ==> neighboring_tiles@[j] == unit_tile_pos.spec_neighbor(
                        Direction::spec_from_index(j),
                    ),
                k <= 6,
                workplaces@ == spec_workplace_candidates(
                    *world,
                    structure_id,
                    unit_tile_pos,
                    k as int,
                ),
                forall|m: int|
                    0 <= m < workplaces@.len() ==> unit_tile_pos.spec_is_adjacent(
                        (#[trigger] workplaces@[m]).1,
                    ),
            decreases 6 - k,
        {
            let neighbor = neighboring_tiles[k];
            proof {
                assert(unit_tile_pos.spec_neighbor(Direction::spec_from_index(k as int))
                    == neighbor);
            }
            match world.needs_work(neighbor, structure_id) {
                Some(workplace) => {
                    workplaces.push((workplace, neighbor));
                },
                None => {},
            }
            k += 1;
        }
        if workplaces.len() > 0 {
            let chosen = choose_index(rng, workplaces.len());
            let (_, workplace_tile_pos) = workplaces[chosen];
            CurrentAction::move_or_spin(
                unit_tile_pos,
                workplace_tile_pos,
                facing,
                terrain_manifest,
                &world.map,
            )
        } else {
            match signals.upstream(unit_tile_pos, &Goal::Work(structure_id), &world.map) {
                Some(upstream_tile) => CurrentAction::move_or_spin(
                    unit_tile_pos,
                    upstream_tile,
                    facing,
                    terrain_manifest,
                    &world.map,
                ),
                None => CurrentAction::idle(),
            }
        }
    }

    /// Attempt to find a structure of type `structure_id` waiting for
    /// demolition: the tile ahead first, then the unit's own tile, then any
    /// neighbor; fall back to the signal gradient, then to idling.
    pub fn find_demolition_site(
        structure_id: StructureId,
        unit_tile_pos: TilePos,
        facing: &Facing,
        signals: &Signals,
        rng: &mut rand::rngs::StdRng,
        terrain_manifest: &TerrainManifest,
        world: &World,
    ) -> (result: CurrentAction)
        requires
            world.wf(),
            signals.wf(),
            terrain_manifest.wf(),
            tile_in_range(unit_tile_pos),
        ensures
            spec_find_demolition_post(
                *world,
                *signals,
                *terrain_manifest,
                structure_id,
                unit_tile_pos,
                *facing,
                result,
            ),
    {
        let ahead = unit_tile_pos.neighbor(facing.direction);
        match world.needs_demolition(ahead, structure_id) {
            Some(site) => {
                return CurrentAction::demolish(site);
            },
            None => {},
        }
        match world.needs_demolition(unit_tile_pos, structure_id) {
            Some(site) => {
                return CurrentAction::demolish(site);
            },
            None => {},
        }
        let neighboring_tiles = unit_tile_pos.all_neighbors();
        let mut demo_sites: Vec<(Entity, TilePos)> = Vec::new();
        let mut k: usize = 0;
        while k < 6
            invariant
                world.wf(),
                tile_in_range(unit_tile_pos),
                neighboring_tiles@.len() == 6,
                forall|j: int|
                    0 <= j < 6 ==> neighboring_tiles@[j] == unit_tile_pos.spec_neighbor(
                        Direction::spec_from_index(j),
                    ),
                k <= 6,
                demo_sites@ == spec_demolition_candidates(
                    *world,
                    structure_id,
                    unit_tile_pos,
                    k as int,
                ),
                forall|m: int|
                    0 <= m < demo_sites@.len() ==> unit_tile_pos.spec_is_adjacent(
                        (#[trigger] demo_sites@[m]).1,
                    ),
            decreases 6 - k,
        {
            let neighbor = neighboring_tiles[k];
            proof {
                assert(unit_tile_pos.spec_neighbor(Direction::spec_from_index(k as int))
                    == neighbor);
            }
            match world.needs_demolition(neighbor, structure_id) {
                Some(site) => {
                    demo_sites.push((site, neighbor));
                },
                None => {},
            }
            k += 1;
        }
        if demo_sites.len() > 0 {
            let chosen = choose_index(rng, demo_sites.len());
            let (_, site_tile_pos) = demo_sites[chosen];
            CurrentAction::move_or_spin(
                unit_tile_pos,
                site_tile_pos,
                facing,
                terrain_manifest,
                &world.map,
            )
        } else {
            match signals.upstream(unit_tile_pos, &Goal::Demolish(structure_id), &world.map) {
                Some(upstream_tile) => CurrentAction::move_or_spin(
                    unit_tile_pos,
                    upstream_tile,
                    facing,
                    terrain_manifest,
                    &world.map,
                ),
                None => CurrentAction::idle(),
            }
        }
    }
}

/// The spin chosen by `spin_towards` takes the shorter way around: a side
/// that is strictly fewer turns from the required direction is always the
/// side chosen, and the tie is broken toward the left.
pub proof fn lemma_spin_towards_shortest(facing: Facing, required_direction: Direction)
    requires
        facing.direction != required_direction,
    ensures
        left_steps(facing.direction, required_direction) < right_steps(
            facing.direction,
            required_direction,
        ) ==> CurrentAction::spec_spin_towards(facing, required_direction)
            == CurrentAction::spec_spin(RotationDirection::Left),
        right_steps(facing.direction, required_direction) < left_steps(
            facing.direction,
            required_direction,
        ) ==> CurrentAction::spec_spin_towards(facing, required_direction)
            == CurrentAction::spec_spin(RotationDirection::Right),
        left_steps(facing.direction, required_direction) == right_steps(
            facing.direction,
            required_direction,
        ) ==> CurrentAction::spec_spin_towards(facing, required_direction)
            == CurrentAction::spec_spin(RotationDirection::Left),
{
}

} // verus!
