//! The tick driver: the three ordered phases run once per fixed simulation
//! step over the whole unit population.
//!
//! 1. Advance: every unit's action timer counts down, never below zero.
//! 2. Start: units whose action just started perform its entry side effect
//!    (claiming a workplace seat) exactly once; a unit that finds no free
//!    seat idles instead.
//! 3. Finish: units whose countdown elapsed perform the action's exit
//!    effects (transfers, movement, rotation, eating, demolition, seat
//!    release) and pick the goal the outcome calls for.
//!
//! Units are processed in order; the drivers' contracts state that the
//! outcome equals the sequential chain of the per-unit steps.

use vstd::prelude::*;

use crate::actions::{CurrentAction, Timer, UnitAction, IDLE_DURATION_MS};
use crate::crafting::{CraftingState, WorkersPresent};
use crate::goals::Goal;
use crate::ids::ItemId;
use crate::inventory::{
    spec_added_slots, spec_count, spec_removed_slots, spec_slot_space, InputInventory,
    OutputInventory, StorageInventory,
};
use crate::items::{ItemCount, ItemManifest};
use crate::signals::{SignalType, Signals};
use crate::terrain::TerrainManifest;
use crate::units::{EnergyPool, ImpatiencePool, Lifecycle, Unit, UnitInventory, UnitManifest};
use crate::world::{spec_entity_index, spec_has_entity, World, WorldEntity};

verus! {

/// The unit after one timer advance of `delta_ms`.
pub open spec fn spec_advanced_unit(u: Unit, delta_ms: u64) -> Unit {
    Unit {
        current_action: CurrentAction {
            timer: u.current_action.timer.spec_ticked(delta_ms),
            ..u.current_action
        },
        ..u
    }
}

/// Ticks the timer of every unit's current action by the fixed step size.
pub fn advance_action_timer(units: &mut Vec<Unit>, delta_ms: u64)
    ensures
        final(units)@.len() == old(units)@.len(),
        forall|i: int|
            0 <= i < old(units)@.len() ==> final(units)@[i] == spec_advanced_unit(
                old(units)@[i],
                delta_ms,
            ),
{
    let n = units.len();
    let mut i: usize = 0;
    while i < n
        invariant
            n == units@.len(),
            n == old(units)@.len(),
            i <= n,
            forall|m: int|
                0 <= m < i ==> units@[m] == spec_advanced_unit(old(units)@[m], delta_ms),
            forall|m: int| i <= m < n ==> units@[m] == old(units)@[m],
        decreases n - i,
    {
        let mut unit = units[i];
        unit.current_action.timer.tick(delta_ms);
        units[i] = unit;
        i += 1;
    }
}

/// How the start phase treats one unit: when its action just started, the
/// flag is consumed; an action aimed at a workplace claims one seat there,
/// and is replaced by idling (with its entry already consumed) when every
/// seat is taken.
pub open spec fn spec_start_step(w0: World, u0: Unit, w1: World, u1: Unit) -> bool {
    if !u0.current_action.just_started {
        w1 == w0 && u1 == u0
    } else {
        let cleared = Unit {
            current_action: CurrentAction { just_started: false, ..u0.current_action },
            ..u0
        };
        match u0.current_action.action.spec_workplace() {
            None => w1 == w0 && u1 == cleared,
            Some(e) => match w0.spec_entity(e) {
                None => w1 == w0 && u1 == cleared,
                Some(record) => match record.workers_present {
                    None => w1 == w0 && u1 == cleared,
                    Some(wp) => if wp.current < wp.max {
                        let j = spec_entity_index(w0.entities@, e);
                        &&& w1.entities@ == w0.entities@.update(
                            j,
                            WorldEntity {
                                workers_present: Some(
                                    WorkersPresent {
                                        current: (wp.current + 1) as u8,
                                        max: wp.max,
                                    },
                                ),
                                ..record
                            },
                        )
                        &&& w1.map == w0.map
                        &&& w1.next_entity == w0.next_entity
                        &&& u1 == cleared
                    } else {
                        &&& w1 == w0
                        &&& u1 == Unit {
                            current_action: CurrentAction {
                                action: UnitAction::Idle,
                                timer: Timer { remaining_ms: IDLE_DURATION_MS },
                                just_started: false,
                            },
                            ..u0
                        }
                    },
                },
            },
        }
    }
}

/// Handles the setup for one unit's planned action.
pub fn start_action(world: &mut World, unit: &mut Unit)
    requires
        old(world).wf(),
    ensures
        final(world).wf(),
        spec_start_step(*old(world), *old(unit), *final(world), *final(unit)),
{
    if !unit.current_action.just_started {
        return ;
    }
    let action = unit.current_action.action;
    match action.workplace() {
        None => {},
        Some(workplace_entity) => {
            match world.find_entity(workplace_entity) {
                None => {},
                Some(j) => {
                    match world.entities[j].workers_present {
                        None => {},
                        Some(wp) => {
                            let ghost prev = world.entities@;
                            let mut seats = wp;
                            let seat_result = seats.add_worker();
                            match seat_result {
                                Ok(_) => {
                                    let record = &mut world.entities[j];
                                    record.workers_present = Some(seats);
                                    proof {
                                        assert(world.entities@ =~= prev.update(
                                            j as int,
                                            WorldEntity {
                                                workers_present: Some(seats),
                                                ..prev[j as int]
                                            },
                                        ));
                                        assert forall|k: int, l: int|
                                            0 <= k < l < world.entities@.len() implies world
                                            .entities@[k].entity != world.entities@[l].entity by {
                                            assert(world.entities@[k].entity
                                                == prev[k].entity);
                                            assert(world.entities@[l].entity
                                                == prev[l].entity);
                                        }
                                    }
                                },
                                Err(_) => {
                                    unit.current_action = CurrentAction::idle();
                                },
                            }
                        },
                    }
                },
            }
        },
    }
    unit.current_action.just_started = false;
}

/// Exhaustively handles the setup for each planned action, processing the
/// units in order.  The returned ghost trace holds the world as it stood
/// before each unit was processed (and, last, the final world), so the
/// whole phase is pinned down as the chain of per-unit steps.
pub fn start_actions(units: &mut Vec<Unit>, world: &mut World) -> (trace: Ghost<Seq<World>>)
    requires
        old(world).wf(),
    ensures
        final(world).wf(),
        final(units)@.len() == old(units)@.len(),
        trace@.len() == old(units)@.len() + 1,
        trace@[0] == *old(world),
        trace@[old(units)@.len() as int] == *final(world),
        forall|i: int|
            0 <= i < old(units)@.len() ==> spec_start_step(
                #[trigger] trace@[i],
                old(units)@[i],
                trace@[i + 1],
                final(units)@[i],
            ),
{
    let n = units.len();
    let ghost mut trace_seq: Seq<World> = Seq::empty().push(*world);
    let mut i: usize = 0;
    while i < n
        invariant
            n == units@.len(),
            n == old(units)@.len(),
            i <= n,
            world.wf(),
            trace_seq.len() == i + 1,
            trace_seq[0] == *old(world),
            trace_seq[i as int] == *world,
            forall|m: int|
                0 <= m < i ==> spec_start_step(
                    #[trigger] trace_seq[m],
                    old(units)@[m],
                    trace_seq[m + 1],
                    units@[m],
                ),
            forall|m: int| i <= m < n ==> units@[m] == old(units)@[m],
        decreases n - i,
    {
        let mut unit = units[i];
        start_action(world, &mut unit);
        units[i] = unit;
        proof {
            trace_seq = trace_seq.push(*world);
        }
        i += 1;
    }
    Ghost(trace_seq)
}

/// How the choose phase treats one unit: a unit whose action has not yet
/// finished keeps it; otherwise only its action changes, to whatever its
/// goal calls for — wandering alternates spinning and walking, carrying
/// the wrong item is abandoned, eating the right item starts at once, and
/// everything else goes through the goal's resolver.
pub open spec fn spec_chosen_action(
    world: World,
    signals: Signals,
    terrain_manifest: TerrainManifest,
    item_manifest: ItemManifest,
    u0: Unit,
    u1: Unit,
) -> bool {
    if !u0.current_action.timer.spec_finished() {
        u1 == u0
    } else {
        &&& u1 == Unit { current_action: u1.current_action, ..u0 }
        &&& match u0.goal {
            Goal::Wander => match u0.current_action.action {
                UnitAction::Spin { .. } => u1.current_action == CurrentAction::spec_move_forward(
                    u0.tile_pos,
                    u0.facing,
                    world.map,
                    terrain_manifest,
                ),
                _ => u1.current_action == CurrentAction::spec_spin(
                    crate::geometry::RotationDirection::Left,
                ) || u1.current_action == CurrentAction::spec_spin(
                    crate::geometry::RotationDirection::Right,
                ),
            },
            Goal::Pickup(item_id) => if u0.unit_inventory.held_item matches Some(h) && h
                != item_id {
                u1.current_action == CurrentAction::spec_abandon()
            } else {
                crate::actions::spec_find_item_post(
                    world,
                    signals,
                    terrain_manifest,
                    item_id,
                    u0.tile_pos,
                    u0.facing,
                    Goal::Pickup(item_id),
                    u1.current_action,
                )
            },
            Goal::Store(item_id) => if u0.unit_inventory.held_item matches Some(h) && h
                != item_id {
                u1.current_action == CurrentAction::spec_abandon()
            } else {
                crate::actions::spec_find_storage_post(
                    world,
                    signals,
                    terrain_manifest,
                    item_manifest,
                    item_id,
                    u0.tile_pos,
                    u0.facing,
                    Goal::Store(item_id),
                    u1.current_action,
                )
            },
            Goal::Deliver(item_id) => if u0.unit_inventory.held_item matches Some(h) && h
                != item_id {
                u1.current_action == CurrentAction::spec_abandon()
            } else {
                crate::actions::spec_find_delivery_post(
                    world,
                    signals,
                    terrain_manifest,
                    item_id,
                    u0.tile_pos,
                    u0.facing,
                    Goal::Deliver(item_id),
                    u1.current_action,
                )
            },
            Goal::Eat(item_id) => match u0.unit_inventory.held_item {
                Some(held) => if held == item_id {
                    u1.current_action == CurrentAction::spec_eat()
                } else {
                    u1.current_action == CurrentAction::spec_abandon()
                },
                None => crate::actions::spec_find_item_post(
                    world,
                    signals,
                    terrain_manifest,
                    item_id,
                    u0.tile_pos,
                    u0.facing,
                    Goal::Eat(item_id),
                    u1.current_action,
                ),
            },
            Goal::Work(structure_id) => crate::actions::spec_find_workplace_post(
                world,
                signals,
                terrain_manifest,
                structure_id,
                u0.tile_pos,
                u0.facing,
                u1.current_action,
            ),
            Goal::Demolish(structure_id) => crate::actions::spec_find_demolition_post(
                world,
                signals,
                terrain_manifest,
                structure_id,
                u0.tile_pos,
                u0.facing,
                u1.current_action,
            ),
        }
    }
}

/// Chooses each unit's next action, for every unit whose current action
/// has finished.
pub fn choose_actions(
    units: &mut Vec<Unit>,
    world: &World,
    signals: &Signals,
    item_manifest: &ItemManifest,
    terrain_manifest: &TerrainManifest,
    rng: &mut rand::rngs::StdRng,
)
    requires
        world.wf(),
        signals.wf(),
        item_manifest.wf(),
        terrain_manifest.wf(),
        forall|i: int| 0 <= i < old(units)@.len() ==> (#[trigger] old(units)@[i]).wf(),
    ensures
        final(units)@.len() == old(units)@.len(),
        forall|i: int| 0 <= i < final(units)@.len() ==> (#[trigger] final(units)@[i]).wf(),
        forall|i: int|
            0 <= i < old(units)@.len() ==> spec_chosen_action(
                *world,
                *signals,
                *terrain_manifest,
                *item_manifest,
                #[trigger] old(units)@[i],
                final(units)@[i],
            ),
{
    let n = units.len();
    let mut i: usize = 0;
    while i < n
        invariant
            n == units@.len(),
            n == old(units)@.len(),
            i <= n,
            world.wf(),
            signals.wf(),
            item_manifest.wf(),
            terrain_manifest.wf(),
            forall|m: int| 0 <= m < units@.len() ==> (#[trigger] units@[m]).wf(),
            forall|m: int|
                0 <= m < i ==> spec_chosen_action(
                    *world,
                    *signals,
                    *terrain_manifest,
                    *item_manifest,
                    #[trigger] old(units)@[m],
                    units@[m],
                ),
            forall|m: int| i <= m < n ==> units@[m] == old(units)@[m],
        decreases n - i,
    {
        let mut unit = units[i];
        if unit.current_action.finished() {
            let new_action = match unit.goal {
                // Alternate between spinning and moving forward.
                Goal::Wander => match unit.current_action.action {
                    UnitAction::Spin { .. } => CurrentAction::move_forward(
                        unit.tile_pos,
                        &unit.facing,
                        &world.map,
                        terrain_manifest,
                    ),
                    _ => CurrentAction::random_spin(rng),
                },
                Goal::Pickup(item_id) => {
                    let mismatched = match unit.unit_inventory.held_item {
                        Some(held) => held.value != item_id.value,
                        None => false,
                    };
                    if mismatched {
                        CurrentAction::abandon()
                    } else {
                        CurrentAction::find_item(
                            item_id,
                            unit.tile_pos,
                            &unit.facing,
                            &unit.goal,
                            signals,
                            rng,
                            terrain_manifest,
                            world,
                        )
                    }
                },
                Goal::Store(item_id) => {
                    let mismatched = match unit.unit_inventory.held_item {
                        Some(held) => held.value != item_id.value,
                        None => false,
                    };
                    if mismatched {
                        CurrentAction::abandon()
                    } else {
                        CurrentAction::find_storage(
                            item_id,
                            unit.tile_pos,
                            &unit.facing,
                            &unit.goal,
                            signals,
                            rng,
                            terrain_manifest,
                            item_manifest,
                            world,
                        )
                    }
                },
                Goal::Deliver(item_id) => {
                    let mismatched = match unit.unit_inventory.held_item {
                        Some(held) => held.value != item_id.value,
                        None => false,
                    };
                    if mismatched {
                        CurrentAction::abandon()
                    } else {
                        CurrentAction::find_delivery(
                            item_id,
                            unit.tile_pos,
                            &unit.facing,
                            &unit.goal,
                            signals,
                            rng,
                            terrain_manifest,
                            world,
                        )
                    }
                },
                Goal::Eat(item_id) => {
                    match unit.unit_inventory.held_item {
                        Some(held) => {
                            if held.value == item_id.value {
                                CurrentAction::eat()
                            } else {
                                CurrentAction::abandon()
                            }
                        },
                        None => CurrentAction::find_item(
                            item_id,
                            unit.tile_pos,
                            &unit.facing,
                            &unit.goal,
                            signals,
                            rng,
                            terrain_manifest,
                            world,
                        ),
                    }
                },
                Goal::Work(structure_id) => CurrentAction::find_workplace(
                    structure_id,
                    unit.tile_pos,
                    &unit.facing,
                    signals,
                    rng,
                    terrain_manifest,
                    world,
                ),
                Goal::Demolish(structure_id) => CurrentAction::find_demolition_site(
                    structure_id,
                    unit.tile_pos,
                    &unit.facing,
                    signals,
                    rng,
                    terrain_manifest,
                    world,
                ),
            };
            unit.current_action = new_action;
        }
        units[i] = unit;
        i += 1;
    }
}

/// The world after the finished action's seat (if any) was released: an
/// action aimed at a workplace lets one worker go, saturating at zero.
pub open spec fn spec_seat_released(w0: World, w1: World, action: UnitAction) -> bool {
    match action.spec_workplace() {
        None => w1 == w0,
        Some(e) => match w0.spec_entity(e) {
            None => w1 == w0,
            Some(record) => match (record.crafting_state, record.workers_present) {
                (Some(_), Some(wp)) => {
                    let j = spec_entity_index(w0.entities@, e);
                    let released = if wp.current > 0 {
                        (wp.current - 1) as u8
                    } else {
                        0u8
                    };
                    &&& w1.entities@ == w0.entities@.update(
                        j,
                        WorldEntity {
                            workers_present: Some(
                                WorkersPresent { current: released, max: wp.max },
                            ),
                            ..record
                        },
                    )
                    &&& w1.map == w0.map
                    &&& w1.next_entity == w0.next_entity
                },
                _ => w1 == w0,
            },
        },
    }
}

/// `b` is `a` with a different output inventory holding `slots` (bound and
/// reservation unchanged).
pub open spec fn spec_output_replaced(a: WorldEntity, b: WorldEntity, slots: Seq<
    crate::inventory::ItemSlot,
>) -> bool {
    &&& b.entity == a.entity
    &&& b.tile_pos == a.tile_pos
    &&& b.structure_id == a.structure_id
    &&& b.is_ghost == a.is_ghost
    &&& b.input == a.input
    &&& b.storage == a.storage
    &&& b.crafting_state == a.crafting_state
    &&& b.workers_present == a.workers_present
    &&& b.marked_for_demolition == a.marked_for_demolition
    &&& a.output matches Some(o) && b.output matches Some(o1) && o1.inventory.slots@ == slots
        && o1.inventory.max_slot_count == o.inventory.max_slot_count && o1.inventory.reserved_for
        == o.inventory.reserved_for
}

/// `b` is `a` with a different input inventory holding `slots`.
pub open spec fn spec_input_replaced(a: WorldEntity, b: WorldEntity, slots: Seq<
    crate::inventory::ItemSlot,
>) -> bool {
    &&& b.entity == a.entity
    &&& b.tile_pos == a.tile_pos
    &&& b.structure_id == a.structure_id
    &&& b.is_ghost == a.is_ghost
    &&& b.output == a.output
    &&& b.storage == a.storage
    &&& b.crafting_state == a.crafting_state
    &&& b.workers_present == a.workers_present
    &&& b.marked_for_demolition == a.marked_for_demolition
    &&& a.input matches Some(i) && b.input matches Some(i1) && i1.inventory.slots@ == slots
        && i1.inventory.max_slot_count == i.inventory.max_slot_count && i1.inventory.reserved_for
        == i.inventory.reserved_for
}

/// `b` is `a` with a different storage inventory holding `slots`.
pub open spec fn spec_storage_replaced(a: WorldEntity, b: WorldEntity, slots: Seq<
    crate::inventory::ItemSlot,
>) -> bool {
    &&& b.entity == a.entity
    &&& b.tile_pos == a.tile_pos
    &&& b.structure_id == a.structure_id
    &&& b.is_ghost == a.is_ghost
    &&& b.input == a.input
    &&& b.output == a.output
    &&& b.crafting_state == a.crafting_state
    &&& b.workers_present == a.workers_present
    &&& b.marked_for_demolition == a.marked_for_demolition
    &&& a.storage matches Some(s) && b.storage matches Some(s1) && s1.inventory.slots@ == slots
        && s1.inventory.max_slot_count == s.inventory.max_slot_count && s1.inventory.reserved_for
        == s.inventory.reserved_for
}

/// `w1` is `w0` with entity record `j` replaced; everything else equal.
pub open spec fn spec_world_record_changed(w0: World, w1: World, j: int) -> bool {
    &&& w1.map == w0.map
    &&& w1.next_entity == w0.next_entity
    &&& w1.entities@.len() == w0.entities@.len()
    &&& forall|m: int| 0 <= m < w0.entities@.len() && m != j ==> w1.entities@[m] == w0.entities@[m]
}

/// The unit after eating: the held item is consumed; when it matches the
/// unit's diet, the energy reserve rises by the diet's worth (clamped at
/// capacity) and the gain is recorded for the unit's growth.
pub open spec fn spec_after_eating(um: UnitManifest, u0: Unit) -> Unit {
    match u0.unit_inventory.held_item {
        None => Unit { unit_inventory: UnitInventory { held_item: None }, ..u0 },
        Some(held) => match um.spec_get(u0.unit_id) {
            None => Unit { unit_inventory: UnitInventory { held_item: None }, ..u0 },
            Some(data) => if held == data.diet.item {
                let gained = data.diet.energy;
                let proposed = u0.energy_pool.current as int + gained as int;
                let new_current = if proposed <= u0.energy_pool.max as int {
                    proposed
                } else {
                    u0.energy_pool.max as int
                };
                let new_gained = if u0.lifecycle.energy_gained as int + gained as int
                    <= u64::MAX as int {
                    u0.lifecycle.energy_gained as int + gained as int
                } else {
                    u64::MAX as int
                };
                Unit {
                    unit_inventory: UnitInventory { held_item: None },
                    energy_pool: EnergyPool {
                        current: new_current as u64,
                        max: u0.energy_pool.max,
                    },
                    lifecycle: Lifecycle { energy_gained: new_gained as u64 },
                    ..u0
                }
            } else {
                Unit { unit_inventory: UnitInventory { held_item: None }, ..u0 }
            },
        },
    }
}

/// The exit effects of one finished action, after its seat was released:
/// what the variant does to the world and which goal the unit leaves with.
pub open spec fn spec_action_finished(
    im: ItemManifest,
    um: UnitManifest,
    sig: Signals,
    w: World,
    u0: Unit,
    w1: World,
    u1: Unit,
) -> bool {
    match u0.current_action.action {
        UnitAction::Idle => w1 == w && u1 == Unit {
            impatience: ImpatiencePool {
                current: if u0.impatience.current < u0.impatience.max {
                    (u0.impatience.current + 1) as u8
                } else {
                    u0.impatience.current
                },
                max: u0.impatience.max,
            },
            ..u0
        },
        UnitAction::PickUp { item_id, output_entity } => match w.spec_entity(output_entity) {
            None => w1 == w && u1 == Unit { goal: Goal::Wander, ..u0 },
            Some(record) => match u0.unit_inventory.held_item {
                Some(held) => w1 == w && u1 == Unit { goal: Goal::Store(held), ..u0 },
                None => {
                    let j = spec_entity_index(w.entities@, output_entity);
                    match (record.output, record.storage) {
                        (Some(o), _) => {
                            let taken = spec_count(o.inventory.slots@, item_id) >= 1;
                            &&& spec_world_record_changed(w, w1, j)
                            &&& spec_output_replaced(
                                record,
                                w1.entities@[j],
                                spec_removed_slots(o.inventory.slots@, item_id, 1),
                            )
                            &&& u1 == spec_after_pickup_transfer(sig, u0, item_id, taken)
                        },
                        (None, Some(s)) => {
                            let taken = spec_count(s.inventory.slots@, item_id) >= 1;
                            &&& spec_world_record_changed(w, w1, j)
                            &&& spec_storage_replaced(
                                record,
                                w1.entities@[j],
                                spec_removed_slots(s.inventory.slots@, item_id, 1),
                            )
                            &&& u1 == spec_after_pickup_transfer(sig, u0, item_id, taken)
                        },
                        (None, None) => w1 == w && u1 == Unit { goal: Goal::Wander, ..u0 },
                    }
                },
            },
        },
        UnitAction::DropOff { item_id, input_entity } => match w.spec_entity(input_entity) {
            None => w1 == w && u1 == Unit { goal: Goal::Wander, ..u0 },
            Some(record) => match u0.unit_inventory.held_item {
                None => w1 == w && u1 == Unit { goal: Goal::Wander, ..u0 },
                Some(held) => if held != item_id {
                    w1 == w && u1 == Unit { goal: Goal::Store(held), ..u0 }
                } else {
                    let j = spec_entity_index(w.entities@, input_entity);
                    let stack = im.spec_stack_size(held) as int;
                    match (record.input, record.storage) {
                        (Some(i), _) => {
                            let fits = spec_slot_space(i.inventory.slots@, held) >= 1;
                            &&& spec_world_record_changed(w, w1, j)
                            &&& spec_input_replaced(
                                record,
                                w1.entities@[j],
                                spec_added_slots(i.inventory.slots@, held, 1, stack, false),
                            )
                            &&& u1 == spec_after_dropoff_transfer(u0, held, fits)
                        },
                        (None, Some(s)) => {
                            let fits = s.inventory.spec_space_for(held, stack, true) >= 1;
                            let can_open = s.inventory.reservation_accepts(held)
                                && s.inventory.slots@.len() < s.inventory.max_slot_count;
                            &&& spec_world_record_changed(w, w1, j)
                            &&& spec_storage_replaced(
                                record,
                                w1.entities@[j],
                                spec_added_slots(s.inventory.slots@, held, 1, stack, can_open),
                            )
                            &&& u1 == spec_after_dropoff_transfer(u0, held, fits)
                        },
                        (None, None) => w1 == w && u1 == Unit { goal: Goal::Wander, ..u0 },
                    }
                },
            },
        },
        UnitAction::Spin { rotation_direction } => w1 == w && u1 == Unit {
            facing: crate::geometry::Facing {
                direction: match rotation_direction {
                    crate::geometry::RotationDirection::Left => u0.facing.direction.spec_left(),
                    crate::geometry::RotationDirection::Right => u0.facing.direction.spec_right(),
                },
            },
            ..u0
        },
        UnitAction::MoveForward => {
            let target = u0.tile_pos.spec_neighbor(u0.facing.direction);
            w1 == w && u1 == Unit {
                tile_pos: if w.map.spec_is_valid(target) {
                    target
                } else {
                    u0.tile_pos
                },
                ..u0
            }
        },
        UnitAction::Work { structure_entity } => {
            let success = match w.spec_entity(structure_entity) {
                Some(record) => record.crafting_state == Some(CraftingState::InProgress) && (
                match record.workers_present {
                    Some(wp) => wp.current < wp.max,
                    None => false,
                }),
                None => false,
            };
            w1 == w && u1 == (if success {
                u0
            } else {
                Unit { goal: Goal::Wander, ..u0 }
            })
        },
        UnitAction::Demolish { structure_entity } => {
            &&& u1 == Unit { goal: Goal::Wander, ..u0 }
            &&& match w.spec_entity(structure_entity) {
                None => w1 == w,
                Some(record) => match w.map.spec_structure_at(record.tile_pos) {
                    None => w1 == w,
                    Some(doomed) => {
                        &&& w1.map.structures@ == w.map.structures@.filter(
                            |rec: crate::geometry::TileEntity| rec.entity != doomed,
                        )
                        &&& w1.map.valid@ == w.map.valid@
                        &&& w1.map.impassable@ == w.map.impassable@
                        &&& w1.map.terrain@ == w.map.terrain@
                        &&& w1.map.ghosts@ == w.map.ghosts@
                        &&& w1.next_entity == w.next_entity
                        &&& !spec_has_entity(w.entities@, doomed) ==> w1.entities@ == w.entities@
                        &&& spec_has_entity(w.entities@, doomed) ==> w1.entities@
                            == w.entities@.remove(spec_entity_index(w.entities@, doomed))
                    },
                },
            }
        },
        UnitAction::Eat => w1 == w && u1 == spec_after_eating(um, u0),
        UnitAction::Abandon => w1 == w && u1 == Unit {
            unit_inventory: UnitInventory { held_item: None },
            ..u0
        },
    }
}

/// The unit after a pickup transfer was attempted: on success it carries
/// the item and delivers it when a pull signal is present on its tile, else
/// stores it; on failure it keeps trying to pick the item up.
pub open spec fn spec_after_pickup_transfer(
    sig: Signals,
    u0: Unit,
    item_id: ItemId,
    taken: bool,
) -> Unit {
    if taken {
        Unit {
            unit_inventory: UnitInventory { held_item: Some(item_id) },
            goal: if sig.spec_get(SignalType::Pull(item_id), u0.tile_pos) > 0 {
                Goal::Deliver(item_id)
            } else {
                Goal::Store(item_id)
            },
            ..u0
        }
    } else {
        Unit { goal: Goal::Pickup(item_id), ..u0 }
    }
}

/// The unit after a dropoff transfer was attempted: on success its hands
/// are free and it wanders; on failure it looks for somewhere else to store
/// the item.
pub open spec fn spec_after_dropoff_transfer(u0: Unit, held: ItemId, fits: bool) -> Unit {
    if fits {
        Unit { unit_inventory: UnitInventory { held_item: None }, goal: Goal::Wander, ..u0 }
    } else {
        Unit { goal: Goal::Store(held), ..u0 }
    }
}

/// How the finish phase treats one unit: nothing happens until its
/// countdown has elapsed; then its seat (if any) is released — `wmid` is
/// the world at that point — and the action's exit effects run.
pub open spec fn spec_finish_step(
    im: ItemManifest,
    um: UnitManifest,
    sig: Signals,
    w0: World,
    u0: Unit,
    wmid: World,
    w1: World,
    u1: Unit,
) -> bool {
    if !u0.current_action.timer.spec_finished() {
        w1 == w0 && u1 == u0 && wmid == w0
    } else {
        &&& spec_seat_released(w0, wmid, u0.current_action.action)
        &&& spec_action_finished(im, um, sig, wmid, u0, w1, u1)
    }
}

/// Handles the cleanup for one unit's finished action.  The returned ghost
/// world is the state after the seat release, pinning the step down.
pub fn finish_action(
    world: &mut World,
    unit: &mut Unit,
    item_manifest: &ItemManifest,
    unit_manifest: &UnitManifest,
    signals: &Signals,
) -> (mid: Ghost<World>)
    requires
        old(world).wf(),
        old(unit).wf(),
        item_manifest.wf(),
        unit_manifest.wf(),
        signals.wf(),
    ensures
        final(world).wf(),
        final(unit).wf(),
        spec_finish_step(
            *item_manifest,
            *unit_manifest,
            *signals,
            *old(world),
            *old(unit),
            mid@,
            *final(world),
            *final(unit),
        ),
{
    if !unit.current_action.finished() {
        return Ghost(*world);
    }
    let action = unit.current_action.action;
    // Take workers off of the job once actions complete.
    match action.workplace() {
        None => {},
        Some(workplace_entity) => {
            match world.find_entity(workplace_entity) {
                None => {},
                Some(j) => {
                    match (world.entities[j].crafting_state, world.entities[j].workers_present) {
                        (Some(_), Some(wp)) => {
                            let ghost prev = world.entities@;
                            let mut seats = wp;
                            seats.remove_worker();
                            let record = &mut world.entities[j];
                            record.workers_present = Some(seats);
                            proof {
                                assert(world.entities@ =~= prev.update(
                                    j as int,
                                    WorldEntity {
                                        workers_present: Some(seats),
                                        ..prev[j as int]
                                    },
                                ));
                                assert forall|k: int, l: int|
                                    0 <= k < l < world.entities@.len() implies world.entities@[
                                    k].entity != world.entities@[l].entity by {
                                    assert(world.entities@[k].entity == prev[k].entity);
                                    assert(world.entities@[l].entity == prev[l].entity);
                                }
                            }
                        },
                        _ => {},
                    }
                },
            }
        },
    }
    let mid: Ghost<World> = Ghost(*world);
    proof {
        assert(spec_seat_released(*old(world), mid@, action));
    }
    match action {
        UnitAction::Idle => {
            unit.impatience.increment();
        },
        UnitAction::PickUp { item_id, output_entity } => {
            match world.find_entity(output_entity) {
                None => {
                    *(&mut unit.goal) = Goal::default();
                },
                Some(j) => {
                    match unit.unit_inventory.held_item {
                        // We should not be holding anything yet; if we are,
                        // find somewhere to put it.
                        Some(held) => {
                            unit.goal = Goal::Store(held);
                        },
                        None => {
                            let item_count = ItemCount::new(item_id, 1);
                            let ghost prev = world.entities@;
                            let from_output: Option<(OutputInventory, bool)> = match &world
                                .entities[j].output {
                                Some(output_inventory) => {
                                    let mut updated = OutputInventory {
                                        inventory: output_inventory.inventory.duplicate(),
                                    };
                                    let r = updated.remove_item_all_or_nothing(&item_count);
                                    let ok = match r {
                                        Ok(_) => true,
                                        Err(_) => false,
                                    };
                                    Some((updated, ok))
                                },
                                None => None,
                            };
                            match from_output {
                                Some((updated, taken)) => {
                                    let record = &mut world.entities[j];
                                    record.output = Some(updated);
                                    proof {
                                        lemma_record_update_keeps_wf(prev, world.entities@, j as int);
                                    }
                                    finish_pickup_goal(unit, item_id, taken, signals);
                                },
                                None => {
                                    let from_storage: Option<(StorageInventory, bool)> =
                                        match &world.entities[j].storage {
                                        Some(storage_inventory) => {
                                            let mut updated = StorageInventory {
                                                inventory: storage_inventory.inventory.duplicate(),
                                            };
                                            let r = updated.remove_item_all_or_nothing(
                                                &item_count,
                                            );
                                            let ok = match r {
                                                Ok(_) => true,
                                                Err(_) => false,
                                            };
                                            Some((updated, ok))
                                        },
                                        None => None,
                                    };
                                    match from_storage {
                                        Some((updated, taken)) => {
                                            let record = &mut world.entities[j];
                                            record.storage = Some(updated);
                                            proof {
                                                lemma_record_update_keeps_wf(
                                                    prev,
                                                    world.entities@,
                                                    j as int,
                                                );
                                            }
                                            finish_pickup_goal(unit, item_id, taken, signals);
                                        },
                                        None => {
                                            unit.goal = Goal::default();
                                        },
                                    }
                                },
                            }
                        },
                    }
                },
            }
        },
        UnitAction::DropOff { item_id, input_entity } => {
            match world.find_entity(input_entity) {
                None => {
                    unit.goal = Goal::default();
                },
                Some(j) => {
                    match unit.unit_inventory.held_item {
                        // We should be holding something; if not, find
                        // something else to do.
                        None => {
                            unit.goal = Goal::default();
                        },
                        Some(held) => {
                            if held.value != item_id.value {
                                // Somehow we are holding the wrong thing.
                                unit.goal = Goal::Store(held);
                            } else {
                                let item_count = ItemCount::new(held, 1);
                                let ghost prev = world.entities@;
                                let into_input: Option<(InputInventory, bool)> = match &world
                                    .entities[j].input {
                                    Some(input_inventory) => {
                                        let mut updated = InputInventory {
                                            inventory: input_inventory.inventory.duplicate(),
                                        };
                                        let r = updated.add_item_all_or_nothing(
                                            &item_count,
                                            item_manifest,
                                        );
                                        let ok = match r {
                                            Ok(_) => true,
                                            Err(_) => false,
                                        };
                                        Some((updated, ok))
                                    },
                                    None => None,
                                };
                                match into_input {
                                    Some((updated, fits)) => {
                                        let record = &mut world.entities[j];
                                        record.input = Some(updated);
                                        proof {
                                            lemma_record_update_keeps_wf(
                                                prev,
                                                world.entities@,
                                                j as int,
                                            );
                                        }
                                        finish_dropoff_goal(unit, held, fits);
                                    },
                                    None => {
                                        let into_storage: Option<(StorageInventory, bool)> =
                                            match &world.entities[j].storage {
                                            Some(storage_inventory) => {
                                                let mut updated = StorageInventory {
                                                    inventory: storage_inventory.inventory
                                                        .duplicate(),
                                                };
                                                let r = updated.add_item_all_or_nothing(
                                                    &item_count,
                                                    item_manifest,
                                                );
                                                let ok = match r {
                                                    Ok(_) => true,
                                                    Err(_) => false,
                                                };
                                                Some((updated, ok))
                                            },
                                            None => None,
                                        };
                                        match into_storage {
                                            Some((updated, fits)) => {
                                                let record = &mut world.entities[j];
                                                record.storage = Some(updated);
                                                proof {
                                                    lemma_record_update_keeps_wf(
                                                        prev,
                                                        world.entities@,
                                                        j as int,
                                                    );
                                                }
                                                finish_dropoff_goal(unit, held, fits);
                                            },
                                            None => {
                                                unit.goal = Goal::default();
                                            },
                                        }
                                    },
                                }
                            }
                        },
                    }
                },
            }
        },
        UnitAction::Spin { rotation_direction } => {
            match rotation_direction {
                crate::geometry::RotationDirection::Left => unit.facing.rotate_left(),
                crate::geometry::RotationDirection::Right => unit.facing.rotate_right(),
            }
        },
        UnitAction::MoveForward => {
            let target_tile = unit.tile_pos.neighbor(unit.facing.direction);
            if world.map.is_valid(target_tile) {
                proof {
                    let v = world.map.valid@;
                    let i = choose|i: int| 0 <= i < v.len() && v[i] == target_tile;
                    assert(crate::geometry::tile_in_range(v[i]));
                }
                unit.tile_pos = target_tile;
            }
        },
        UnitAction::Work { structure_entity } => {
            let mut success = false;
            match world.find_entity(structure_entity) {
                Some(j) => {
                    let in_progress = match world.entities[j].crafting_state {
                        Some(CraftingState::InProgress) => true,
                        _ => false,
                    };
                    let seat_free = match &world.entities[j].workers_present {
                        Some(wp) => wp.needs_more(),
                        None => false,
                    };
                    if in_progress && seat_free {
                        success = true;
                    }
                },
                None => {},
            }
            if !success {
                unit.goal = Goal::default();
            }
        },
        UnitAction::Demolish { structure_entity } => {
            match world.find_entity(structure_entity) {
                Some(j) => {
                    let structure_tile_pos = world.entities[j].tile_pos;
                    crate::commands::despawn_structure(world, structure_tile_pos);
                },
                None => {},
            }
            // Whether we succeeded or failed, pick something else to do.
            unit.goal = Goal::default();
        },
        UnitAction::Eat => {
            match unit.unit_inventory.held_item {
                Some(held) => {
                    match unit_manifest.get(unit.unit_id) {
                        Some(unit_data) => {
                            if held.value == unit_data.diet.item.value {
                                let gained = unit_data.diet.energy;
                                let current = unit.energy_pool.current();
                                let proposed = if gained <= u64::MAX - current {
                                    current + gained
                                } else {
                                    u64::MAX
                                };
                                unit.energy_pool.set_current(proposed);
                                unit.lifecycle.record_energy_gained(gained);
                            }
                        },
                        None => {},
                    }
                },
                None => {},
            }
            unit.unit_inventory.held_item = None;
        },
        UnitAction::Abandon => {
            // The dropped item is destroyed; it returns to no container.
            unit.unit_inventory.held_item = None;
        },
    }
    mid
}

/// On a successful pickup the unit carries the item and delivers it when a
/// pull signal is present on its tile, else stores it; on failure it keeps
/// trying to pick the item up.
fn finish_pickup_goal(unit: &mut Unit, item_id: ItemId, taken: bool, signals: &Signals)
    requires
        signals.wf(),
    ensures
        *final(unit) == spec_after_pickup_transfer(*signals, *old(unit), item_id, taken),
{
    if taken {
        unit.unit_inventory.held_item = Some(item_id);
        if signals.get(SignalType::Pull(item_id), unit.tile_pos) > 0 {
            // A pull signal is in reach: deliver the item directly.
            unit.goal = Goal::Deliver(item_id);
        } else {
            // Otherwise, simply store it.
            unit.goal = Goal::Store(item_id);
        }
    } else {
        unit.goal = Goal::Pickup(item_id);
    }
}

/// On a successful dropoff the unit's hands are free and it wanders; on
/// failure it looks for somewhere else to store the item.
fn finish_dropoff_goal(unit: &mut Unit, held: ItemId, fits: bool)
    ensures
        *final(unit) == spec_after_dropoff_transfer(*old(unit), held, fits),
{
    if fits {
        unit.unit_inventory.held_item = None;
        unit.goal = Goal::default();
    } else {
        unit.goal = Goal::Store(held);
    }
}

/// Replacing one record (same entity) keeps the uniqueness of entities.
proof fn lemma_record_update_keeps_wf(prev: Seq<WorldEntity>, cur: Seq<WorldEntity>, j: int)
    requires
        0 <= j < prev.len(),
        cur.len() == prev.len(),
        forall|m: int| 0 <= m < prev.len() && m != j ==> cur[m] == prev[m],
        cur[j].entity == prev[j].entity,
        forall|k: int, l: int| 0 <= k < l < prev.len() ==> prev[k].entity != prev[l].entity,
    ensures
        forall|k: int, l: int| 0 <= k < l < cur.len() ==> cur[k].entity != cur[l].entity,
{
    assert forall|k: int, l: int| 0 <= k < l < cur.len() implies cur[k].entity
        != cur[l].entity by {
        assert(cur[k].entity == prev[k].entity);
        assert(cur[l].entity == prev[l].entity);
    }
}

/// Exhaustively handles the cleanup for each finished action, processing
/// the units in order.  The first returned ghost trace holds the world as
/// it stood before each unit was processed (and, last, the final world);
/// the second holds the world after each unit's seat release.
pub fn finish_actions(
    units: &mut Vec<Unit>,
    world: &mut World,
    item_manifest: &ItemManifest,
    unit_manifest: &UnitManifest,
    signals: &Signals,
) -> (traces: (Ghost<Seq<World>>, Ghost<Seq<World>>))
    requires
        old(world).wf(),
        item_manifest.wf(),
        unit_manifest.wf(),
        signals.wf(),
        forall|i: int| 0 <= i < old(units)@.len() ==> (#[trigger] old(units)@[i]).wf(),
    ensures
        final(world).wf(),
        final(units)@.len() == old(units)@.len(),
        forall|i: int| 0 <= i < final(units)@.len() ==> (#[trigger] final(units)@[i]).wf(),
        traces.0@.len() == old(units)@.len() + 1,
        traces.1@.len() == old(units)@.len(),
        traces.0@[0] == *old(world),
        traces.0@[old(units)@.len() as int] == *final(world),
        forall|i: int|
            0 <= i < old(units)@.len() ==> spec_finish_step(
                *item_manifest,
                *unit_manifest,
                *signals,
                #[trigger] traces.0@[i],
                old(units)@[i],
                traces.1@[i],
                traces.0@[i + 1],
                final(units)@[i],
            ),
{
    let n = units.len();
    let ghost mut trace_seq: Seq<World> = Seq::empty().push(*world);
    let ghost mut mids_seq: Seq<World> = Seq::empty();
    let mut i: usize = 0;
    while i < n
        invariant
            n == units@.len(),
            n == old(units)@.len(),
            i <= n,
            world.wf(),
            item_manifest.wf(),
            unit_manifest.wf(),
            signals.wf(),
            forall|m: int| 0 <= m < units@.len() ==> (#[trigger] units@[m]).wf(),
            trace_seq.len() == i + 1,
            mids_seq.len() == i as int,
            trace_seq[0] == *old(world),
            trace_seq[i as int] == *world,
            forall|m: int|
                0 <= m < i ==> spec_finish_step(
                    *item_manifest,
                    *unit_manifest,
                    *signals,
                    #[trigger] trace_seq[m],
                    old(units)@[m],
                    mids_seq[m],
                    trace_seq[m + 1],
                    units@[m],
                ),
            forall|m: int| i <= m < n ==> units@[m] == old(units)@[m],
        decreases n - i,
    {
        let mut unit = units[i];
        let mid = finish_action(world, &mut unit, item_manifest, unit_manifest, signals);
        units[i] = unit;
        proof {
            trace_seq = trace_seq.push(*world);
            mids_seq = mids_seq.push(mid@);
        }
        i += 1;
    }
    (Ghost(trace_seq), Ghost(mids_seq))
}

/// The intermediate states of one fixed simulation step, recorded so that
/// the step's contract pins every phase down.
pub struct FixedStepTrace {
    /// The units after the advance phase.
    pub advanced: Seq<Unit>,
    /// The units after the finish phase.
    pub finished: Seq<Unit>,
    /// The units after the choose phase.
    pub chosen: Seq<Unit>,
    /// The world before each unit's finish step, and after the last.
    pub finish_worlds: Seq<World>,
    /// The world after each unit's seat release within the finish phase.
    pub finish_mids: Seq<World>,
    /// The world before each unit's start step, and after the last.
    pub start_worlds: Seq<World>,
}

/// One fixed simulation step over the whole population, in the order that
/// lets every phase fire: timers advance; units whose countdown elapsed
/// perform their action's exit effects; the resolver picks new actions for
/// the units thus freed; and the new actions' entry effects run.  (Running
/// the resolver before the exit effects would replace every elapsed action
/// with a fresh one and the finish phase could never fire.)
///
/// The returned ghost trace pins the step down as exactly this composition
/// of the four phases' contracts.
pub fn run_fixed_step(
    units: &mut Vec<Unit>,
    world: &mut World,
    signals: &Signals,
    item_manifest: &ItemManifest,
    terrain_manifest: &TerrainManifest,
    unit_manifest: &UnitManifest,
    rng: &mut rand::rngs::StdRng,
    delta_ms: u64,
) -> (trace: Ghost<FixedStepTrace>)
    requires
        old(world).wf(),
        signals.wf(),
        item_manifest.wf(),
        terrain_manifest.wf(),
        unit_manifest.wf(),
        forall|i: int| 0 <= i < old(units)@.len() ==> (#[trigger] old(units)@[i]).wf(),
    ensures
        final(world).wf(),
        final(units)@.len() == old(units)@.len(),
        forall|i: int| 0 <= i < final(units)@.len() ==> (#[trigger] final(units)@[i]).wf(),
        trace@.advanced.len() == old(units)@.len(),
        forall|i: int|
            0 <= i < old(units)@.len() ==> trace@.advanced[i] == spec_advanced_unit(
                #[trigger] old(units)@[i],
                delta_ms,
            ),
        trace@.finished.len() == old(units)@.len(),
        trace@.finish_worlds.len() == old(units)@.len() + 1,
        trace@.finish_mids.len() == old(units)@.len(),
        trace@.finish_worlds[0] == *old(world),
        forall|i: int|
            0 <= i < old(units)@.len() ==> spec_finish_step(
                *item_manifest,
                *unit_manifest,
                *signals,
                #[trigger] trace@.finish_worlds[i],
                trace@.advanced[i],
                trace@.finish_mids[i],
                trace@.finish_worlds[i + 1],
                trace@.finished[i],
            ),
        trace@.chosen.len() == old(units)@.len(),
        forall|i: int|
            0 <= i < old(units)@.len() ==> spec_chosen_action(
                trace@.finish_worlds[old(units)@.len() as int],
                *signals,
                *terrain_manifest,
                *item_manifest,
                #[trigger] trace@.finished[i],
                trace@.chosen[i],
            ),
        trace@.start_worlds.len() == old(units)@.len() + 1,
        trace@.start_worlds[0] == trace@.finish_worlds[old(units)@.len() as int],
        trace@.start_worlds[old(units)@.len() as int] == *final(world),
        forall|i: int|
            0 <= i < old(units)@.len() ==> spec_start_step(
                #[trigger] trace@.start_worlds[i],
                trace@.chosen[i],
                trace@.start_worlds[i + 1],
                final(units)@[i],
            ),
{
    advance_action_timer(units, delta_ms);
    proof {
        assert forall|i: int| 0 <= i < units@.len() implies (#[trigger] units@[i]).wf() by {
            assert(units@[i] == spec_advanced_unit(old(units)@[i], delta_ms));
            assert(old(units)@[i].wf());
        }
    }
    let ghost advanced = units@;
    let finish_traces = finish_actions(units, world, item_manifest, unit_manifest, signals);
    let ghost finished = units@;
    choose_actions(units, world, signals, item_manifest, terrain_manifest, rng);
    let ghost chosen = units@;
    let start_trace = start_actions(units, world);
    proof {
        assert forall|i: int| 0 <= i < units@.len() implies (#[trigger] units@[i]).wf() by {
            assert(spec_start_step(
                start_trace@[i],
                chosen[i],
                start_trace@[i + 1],
                units@[i],
            ));
            assert(chosen[i].wf());
        }
    }
    Ghost(
        FixedStepTrace {
            advanced,
            finished,
            chosen,
            finish_worlds: finish_traces.0@,
            finish_mids: finish_traces.1@,
            start_worlds: start_trace@,
        },
    )
}

} // verus!
