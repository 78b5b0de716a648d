//! The three tick phases over small worlds: advance, start, finish.

use emergence_lib::actions::{CurrentAction, UnitAction};
use emergence_lib::crafting::{CraftingState, WorkersPresent};
use emergence_lib::geometry::{Direction, Facing, MapGeometry, TilePos};
use emergence_lib::goals::Goal;
use emergence_lib::ids::{Entity, ItemId, StructureId, UnitTypeId};
use emergence_lib::inventory::{Inventory, ItemSlot, OutputInventory};
use emergence_lib::items::ItemManifest;
use emergence_lib::signals::{SignalType, Signals};
use emergence_lib::terrain::TerrainManifest;
use emergence_lib::tick::{
    advance_action_timer, choose_actions, finish_actions, run_fixed_step, start_actions,
};
use emergence_lib::units::{
    Diet, EnergyPool, ImpatiencePool, Lifecycle, Unit, UnitData, UnitInventory, UnitManifest,
};
use emergence_lib::world::{World, WorldEntity};
use rand::SeedableRng;

fn leaf() -> ItemId {
    ItemId { value: 1 }
}

fn ant() -> UnitTypeId {
    UnitTypeId { value: 1 }
}

fn origin() -> TilePos {
    TilePos { q: 0, r: 0 }
}

fn east_tile() -> TilePos {
    TilePos { q: 1, r: 0 }
}

fn a_unit(action: CurrentAction, goal: Goal) -> Unit {
    Unit {
        unit_id: ant(),
        tile_pos: origin(),
        facing: Facing { direction: Direction::East },
        goal,
        current_action: action,
        unit_inventory: UnitInventory { held_item: None },
        energy_pool: EnergyPool { current: 10, max: 40 },
        impatience: ImpatiencePool { current: 0, max: 10 },
        lifecycle: Lifecycle { energy_gained: 0 },
    }
}

fn unit_manifest() -> UnitManifest {
    let mut manifest = UnitManifest::new();
    assert!(manifest.insert(
        ant(),
        UnitData { diet: Diet::new(leaf(), 50), max_impatience: 10 },
    ));
    manifest
}

#[test]
fn advance_ticks_every_timer_without_going_negative() {
    let mut units = vec![
        a_unit(CurrentAction::eat(), Goal::Eat(leaf())),
        a_unit(CurrentAction::idle(), Goal::Wander),
    ];
    advance_action_timer(&mut units, 200);
    assert_eq!(units[0].current_action.timer.remaining_ms, 300);
    assert_eq!(units[1].current_action.timer.remaining_ms, 0);
    assert!(units[1].current_action.finished());
    advance_action_timer(&mut units, 400);
    assert_eq!(units[0].current_action.timer.remaining_ms, 0);
    assert_eq!(units[1].current_action.timer.remaining_ms, 0);
}

#[test]
fn start_claims_a_seat_exactly_once() {
    let workplace = Entity { value: 5 };
    let mut map = MapGeometry::new();
    map.add_valid(origin());
    map.add_valid(east_tile());
    map.add_structure(&vec![east_tile()], workplace);
    let mut world = World {
        map,
        entities: vec![WorldEntity {
            entity: workplace,
            tile_pos: east_tile(),
            structure_id: StructureId { value: 100 },
            is_ghost: false,
            input: None,
            output: None,
            storage: None,
            crafting_state: Some(CraftingState::InProgress),
            workers_present: Some(WorkersPresent::new(2)),
            marked_for_demolition: false,
        }],
        next_entity: 6,
    };
    let mut units = vec![a_unit(CurrentAction::work(workplace), Goal::Work(StructureId {
        value: 100,
    }))];
    start_actions(&mut units, &mut world);
    assert_eq!(
        world.entities[0].workers_present,
        Some(WorkersPresent { current: 1, max: 2 }),
    );
    assert!(!units[0].current_action.just_started);

    // Running the phase again must not claim a second seat: the flag was
    // consumed.
    start_actions(&mut units, &mut world);
    assert_eq!(
        world.entities[0].workers_present,
        Some(WorkersPresent { current: 1, max: 2 }),
    );
}

#[test]
fn start_replaces_the_action_with_idle_when_no_seat_is_free() {
    let workplace = Entity { value: 5 };
    let mut map = MapGeometry::new();
    map.add_valid(east_tile());
    map.add_structure(&vec![east_tile()], workplace);
    let mut world = World {
        map,
        entities: vec![WorldEntity {
            entity: workplace,
            tile_pos: east_tile(),
            structure_id: StructureId { value: 100 },
            is_ghost: false,
            input: None,
            output: None,
            storage: None,
            crafting_state: Some(CraftingState::InProgress),
            workers_present: Some(WorkersPresent { current: 2, max: 2 }),
            marked_for_demolition: false,
        }],
        next_entity: 6,
    };
    let mut units = vec![a_unit(CurrentAction::work(workplace), Goal::Work(StructureId {
        value: 100,
    }))];
    start_actions(&mut units, &mut world);
    // The workplace was full: the unit idles instead, and no seat moved.
    assert_eq!(units[0].current_action.action, UnitAction::Idle);
    assert!(!units[0].current_action.just_started);
    assert_eq!(
        world.entities[0].workers_present,
        Some(WorkersPresent { current: 2, max: 2 }),
    );
}

#[test]
fn finished_pickup_loads_the_unit_and_empties_the_container() {
    let container = Entity { value: 10 };
    let mut map = MapGeometry::new();
    map.add_valid(origin());
    map.add_valid(east_tile());
    map.add_structure(&vec![east_tile()], container);
    let mut world = World {
        map,
        entities: vec![WorldEntity {
            entity: container,
            tile_pos: east_tile(),
            structure_id: StructureId { value: 100 },
            is_ghost: false,
            input: None,
            output: Some(OutputInventory {
                inventory: Inventory {
                    slots: vec![ItemSlot { item_id: leaf(), count: 1, max_item_count: 10 }],
                    max_slot_count: 1,
                    reserved_for: None,
                },
            }),
            storage: None,
            crafting_state: None,
            workers_present: None,
            marked_for_demolition: false,
        }],
        next_entity: 11,
    };
    let mut pickup = CurrentAction::pickup(
        leaf(),
        container,
        &Facing { direction: Direction::East },
        origin(),
        east_tile(),
    );
    pickup.timer.tick(500);
    pickup.just_started = false;
    let mut units = vec![a_unit(pickup, Goal::Pickup(leaf()))];
    let item_manifest = ItemManifest::new();
    let unit_manifest = unit_manifest();
    let signals = Signals::new();
    finish_actions(&mut units, &mut world, &item_manifest, &unit_manifest, &signals);

    // The unit now carries the item and the container lost it.
    assert_eq!(units[0].unit_inventory.held_item, Some(leaf()));
    assert_eq!(
        world.entities[0].output.as_ref().unwrap().item_count(leaf()),
        0,
    );
    // No pull signal anywhere: the unit goes to store what it carries.
    assert_eq!(units[0].goal, Goal::Store(leaf()));
}

#[test]
fn pickup_becomes_a_delivery_under_a_pull_signal() {
    let container = Entity { value: 10 };
    let mut map = MapGeometry::new();
    map.add_valid(origin());
    map.add_valid(east_tile());
    map.add_structure(&vec![east_tile()], container);
    let mut world = World {
        map,
        entities: vec![WorldEntity {
            entity: container,
            tile_pos: east_tile(),
            structure_id: StructureId { value: 100 },
            is_ghost: false,
            input: None,
            output: Some(OutputInventory {
                inventory: Inventory {
                    slots: vec![ItemSlot { item_id: leaf(), count: 1, max_item_count: 10 }],
                    max_slot_count: 1,
                    reserved_for: None,
                },
            }),
            storage: None,
            crafting_state: None,
            workers_present: None,
            marked_for_demolition: false,
        }],
        next_entity: 11,
    };
    let mut pickup = CurrentAction::pickup(
        leaf(),
        container,
        &Facing { direction: Direction::East },
        origin(),
        east_tile(),
    );
    pickup.timer.tick(500);
    pickup.just_started = false;
    let mut units = vec![a_unit(pickup, Goal::Pickup(leaf()))];
    let item_manifest = ItemManifest::new();
    let unit_manifest = unit_manifest();
    let mut signals = Signals::new();
    // Something nearby is pulling for the item.
    assert!(signals.insert(SignalType::Pull(leaf()), origin(), 3));
    finish_actions(&mut units, &mut world, &item_manifest, &unit_manifest, &signals);
    assert_eq!(units[0].goal, Goal::Deliver(leaf()));
}

#[test]
fn eating_consumes_the_item_and_clamps_energy() {
    let mut eat = CurrentAction::eat();
    eat.timer.tick(500);
    eat.just_started = false;
    let mut unit = a_unit(eat, Goal::Eat(leaf()));
    unit.unit_inventory.held_item = Some(leaf());
    let mut units = vec![unit];
    let mut world = World::new();
    let item_manifest = ItemManifest::new();
    let unit_manifest = unit_manifest();
    let signals = Signals::new();
    finish_actions(&mut units, &mut world, &item_manifest, &unit_manifest, &signals);
    // 10 current + 50 from the diet, clamped at the capacity of 40.
    assert_eq!(units[0].energy_pool.current, 40);
    assert_eq!(units[0].lifecycle.energy_gained, 50);
    assert_eq!(units[0].unit_inventory.held_item, None);
}

#[test]
fn finished_dropoff_unloads_into_the_reserved_input() {
    let receiver = Entity { value: 10 };
    let mut map = MapGeometry::new();
    map.add_valid(origin());
    map.add_valid(east_tile());
    map.add_structure(&vec![east_tile()], receiver);
    let mut world = World {
        map,
        entities: vec![WorldEntity {
            entity: receiver,
            tile_pos: east_tile(),
            structure_id: StructureId { value: 100 },
            is_ghost: false,
            input: Some(emergence_lib::inventory::InputInventory {
                inventory: emergence_lib::inventory::Inventory::new_from_item(leaf(), 1),
            }),
            output: None,
            storage: None,
            crafting_state: None,
            workers_present: None,
            marked_for_demolition: false,
        }],
        next_entity: 11,
    };
    let mut dropoff = CurrentAction::dropoff(
        leaf(),
        receiver,
        &Facing { direction: Direction::East },
        origin(),
        east_tile(),
    );
    dropoff.timer.tick(200);
    dropoff.just_started = false;
    let mut unit = a_unit(dropoff, Goal::Deliver(leaf()));
    unit.unit_inventory.held_item = Some(leaf());
    let mut units = vec![unit];
    let item_manifest = ItemManifest::new();
    let unit_manifest = unit_manifest();
    let signals = Signals::new();
    finish_actions(&mut units, &mut world, &item_manifest, &unit_manifest, &signals);

    // The item moved; the unit is unloaded and free to wander.
    assert_eq!(units[0].unit_inventory.held_item, None);
    assert_eq!(units[0].goal, Goal::Wander);
    assert_eq!(
        world.entities[0].input.as_ref().unwrap().remaining_reserved_space_for_item(leaf()),
        0,
    );

    // A second delivery into the now-full input is refused whole, and the
    // unit looks for somewhere to store the item instead.
    let mut second_dropoff = CurrentAction::dropoff(
        leaf(),
        receiver,
        &Facing { direction: Direction::East },
        origin(),
        east_tile(),
    );
    second_dropoff.timer.tick(200);
    second_dropoff.just_started = false;
    let mut straggler = a_unit(second_dropoff, Goal::Deliver(leaf()));
    straggler.unit_inventory.held_item = Some(leaf());
    let mut stragglers = vec![straggler];
    finish_actions(&mut stragglers, &mut world, &item_manifest, &unit_manifest, &signals);
    assert_eq!(stragglers[0].unit_inventory.held_item, Some(leaf()));
    assert_eq!(stragglers[0].goal, Goal::Store(leaf()));
    assert_eq!(
        world.entities[0].input.as_ref().unwrap().inventory.item_count(leaf()),
        1,
    );
}

#[test]
fn abandoning_destroys_the_held_item() {
    let mut abandon = CurrentAction::abandon();
    abandon.timer.tick(100);
    abandon.just_started = false;
    let mut unit = a_unit(abandon, Goal::Pickup(leaf()));
    unit.unit_inventory.held_item = Some(ItemId { value: 99 });
    let mut units = vec![unit];
    let mut world = World::new();
    let item_manifest = ItemManifest::new();
    let unit_manifest = unit_manifest();
    let signals = Signals::new();
    finish_actions(&mut units, &mut world, &item_manifest, &unit_manifest, &signals);
    // The item vanishes: a unit carries either nothing or exactly one item.
    assert_eq!(units[0].unit_inventory.held_item, None);
}

#[test]
fn finished_idle_raises_impatience() {
    let mut idle = CurrentAction::idle();
    idle.timer.tick(100);
    idle.just_started = false;
    let mut units = vec![a_unit(idle, Goal::Wander)];
    let mut world = World::new();
    let item_manifest = ItemManifest::new();
    let unit_manifest = unit_manifest();
    let signals = Signals::new();
    finish_actions(&mut units, &mut world, &item_manifest, &unit_manifest, &signals);
    assert_eq!(units[0].impatience.current, 1);
}

#[test]
fn finished_spin_turns_the_unit() {
    let mut spin = CurrentAction::spin(emergence_lib::geometry::RotationDirection::Left);
    spin.timer.tick(100);
    spin.just_started = false;
    let mut units = vec![a_unit(spin, Goal::Wander)];
    let mut world = World::new();
    let item_manifest = ItemManifest::new();
    let unit_manifest = unit_manifest();
    let signals = Signals::new();
    finish_actions(&mut units, &mut world, &item_manifest, &unit_manifest, &signals);
    assert_eq!(units[0].facing.direction, Direction::NorthEast);
}

#[test]
fn finished_move_steps_onto_the_valid_tile_ahead() {
    let mut map = MapGeometry::new();
    map.add_valid(origin());
    map.add_valid(east_tile());
    let mut world = World { map, entities: vec![], next_entity: 0 };
    let mut walk = CurrentAction::idle();
    walk.timer.tick(100);
    walk.just_started = false;
    let mut unit = a_unit(walk, Goal::Wander);
    unit.current_action.action = UnitAction::MoveForward;
    let mut units = vec![unit];
    let item_manifest = ItemManifest::new();
    let unit_manifest = unit_manifest();
    let signals = Signals::new();
    finish_actions(&mut units, &mut world, &item_manifest, &unit_manifest, &signals);
    assert_eq!(units[0].tile_pos, east_tile());
}

#[test]
fn choose_picks_eating_when_holding_the_right_item() {
    let mut done = CurrentAction::idle();
    done.timer.tick(100);
    let mut unit = a_unit(done, Goal::Eat(leaf()));
    unit.unit_inventory.held_item = Some(leaf());
    let mut units = vec![unit];
    let world = World::new();
    let signals = Signals::new();
    let item_manifest = ItemManifest::new();
    let terrain_manifest = TerrainManifest::new();
    let mut rng = rand::rngs::StdRng::seed_from_u64(7);
    choose_actions(
        &mut units,
        &world,
        &signals,
        &item_manifest,
        &terrain_manifest,
        &mut rng,
    );
    assert_eq!(units[0].current_action.action, UnitAction::Eat);
    assert_eq!(units[0].current_action.timer.remaining_ms, 500);
}

#[test]
fn choose_abandons_a_mismatched_carried_item() {
    let mut done = CurrentAction::idle();
    done.timer.tick(100);
    let mut unit = a_unit(done, Goal::Pickup(leaf()));
    unit.unit_inventory.held_item = Some(ItemId { value: 99 });
    let mut units = vec![unit];
    let world = World::new();
    let signals = Signals::new();
    let item_manifest = ItemManifest::new();
    let terrain_manifest = TerrainManifest::new();
    let mut rng = rand::rngs::StdRng::seed_from_u64(7);
    choose_actions(
        &mut units,
        &world,
        &signals,
        &item_manifest,
        &terrain_manifest,
        &mut rng,
    );
    assert_eq!(units[0].current_action.action, UnitAction::Abandon);
}

#[test]
fn wandering_alternates_spinning_and_walking() {
    let mut map = MapGeometry::new();
    map.add_valid(origin());
    map.add_valid(east_tile());
    let world = World { map, entities: vec![], next_entity: 0 };
    let mut spun = CurrentAction::spin(emergence_lib::geometry::RotationDirection::Left);
    spun.timer.tick(100);
    let mut units = vec![a_unit(spun, Goal::Wander)];
    let signals = Signals::new();
    let item_manifest = ItemManifest::new();
    let terrain_manifest = TerrainManifest::new();
    let mut rng = rand::rngs::StdRng::seed_from_u64(7);
    choose_actions(
        &mut units,
        &world,
        &signals,
        &item_manifest,
        &terrain_manifest,
        &mut rng,
    );
    // After a spin the unit walks forward.
    assert_eq!(units[0].current_action.action, UnitAction::MoveForward);

    // After walking (or anything else) it spins again, one way or another.
    units[0].current_action.timer.tick(500);
    choose_actions(
        &mut units,
        &world,
        &signals,
        &item_manifest,
        &terrain_manifest,
        &mut rng,
    );
    assert!(matches!(
        units[0].current_action.action,
        UnitAction::Spin { rotation_direction: _ },
    ));
}

#[test]
fn finished_work_resets_the_goal_when_the_workplace_is_done() {
    // The workplace finished crafting: working there is pointless now.
    let workplace = Entity { value: 5 };
    let mut map = MapGeometry::new();
    map.add_valid(east_tile());
    map.add_structure(&vec![east_tile()], workplace);
    let mut world = World {
        map,
        entities: vec![WorldEntity {
            entity: workplace,
            tile_pos: east_tile(),
            structure_id: StructureId { value: 100 },
            is_ghost: false,
            input: None,
            output: None,
            storage: None,
            crafting_state: Some(CraftingState::RecipeComplete),
            workers_present: Some(WorkersPresent { current: 1, max: 2 }),
            marked_for_demolition: false,
        }],
        next_entity: 6,
    };
    let mut work = CurrentAction::work(workplace);
    work.timer.tick(1000);
    work.just_started = false;
    let mut units = vec![a_unit(work, Goal::Work(StructureId { value: 100 }))];
    let item_manifest = ItemManifest::new();
    let unit_manifest = unit_manifest();
    let signals = Signals::new();
    finish_actions(&mut units, &mut world, &item_manifest, &unit_manifest, &signals);
    // The seat was released and the unit fell back to wandering.
    assert_eq!(
        world.entities[0].workers_present,
        Some(WorkersPresent { current: 0, max: 2 }),
    );
    assert_eq!(units[0].goal, Goal::Wander);
}

#[test]
fn fixed_steps_move_an_item_end_to_end() {
    // A unit with a pickup goal stands next to a stocked container.  Over
    // two whole simulation steps it must resolve the pickup, start it, and
    // finish it: the item leaves the container and lands in its hands.
    let container = Entity { value: 10 };
    let mut map = MapGeometry::new();
    map.add_valid(origin());
    map.add_valid(east_tile());
    map.add_structure(&vec![east_tile()], container);
    let mut world = World {
        map,
        entities: vec![WorldEntity {
            entity: container,
            tile_pos: east_tile(),
            structure_id: StructureId { value: 100 },
            is_ghost: false,
            input: None,
            output: Some(OutputInventory {
                inventory: Inventory {
                    slots: vec![ItemSlot { item_id: leaf(), count: 1, max_item_count: 10 }],
                    max_slot_count: 1,
                    reserved_for: None,
                },
            }),
            storage: None,
            crafting_state: None,
            workers_present: None,
            marked_for_demolition: false,
        }],
        next_entity: 11,
    };
    let mut units = vec![a_unit(CurrentAction::idle(), Goal::Pickup(leaf()))];
    let signals = Signals::new();
    let item_manifest = ItemManifest::new();
    let terrain_manifest = TerrainManifest::new();
    let unit_manifest = unit_manifest();
    let mut rng = rand::rngs::StdRng::seed_from_u64(7);

    // First step: the idle countdown elapses and the resolver, facing the
    // container, picks the pickup; its entry effects run.
    run_fixed_step(
        &mut units,
        &mut world,
        &signals,
        &item_manifest,
        &terrain_manifest,
        &unit_manifest,
        &mut rng,
        100,
    );
    assert_eq!(
        units[0].current_action.action,
        UnitAction::PickUp { item_id: leaf(), output_entity: container },
    );
    assert!(!units[0].current_action.just_started);
    assert_eq!(units[0].current_action.timer.remaining_ms, 500);

    // Second step: the pickup countdown elapses and its exit effects run.
    run_fixed_step(
        &mut units,
        &mut world,
        &signals,
        &item_manifest,
        &terrain_manifest,
        &unit_manifest,
        &mut rng,
        500,
    );
    assert_eq!(units[0].unit_inventory.held_item, Some(leaf()));
    assert_eq!(
        world.entities[0].output.as_ref().unwrap().item_count(leaf()),
        0,
    );
    // With no pull signal the unit now goes to store what it carries, and
    // the resolver has already picked the next action for that goal.
    assert_eq!(units[0].goal, Goal::Store(leaf()));
    assert_eq!(units[0].current_action.action, UnitAction::Idle);
}

#[test]
fn vanished_target_resets_the_goal() {
    // The container despawned while the pickup was underway: the unit
    // falls back to its default goal and nothing else changes.
    let gone = Entity { value: 10 };
    let mut world = World::new();
    world.map.add_valid(origin());
    let mut pickup = CurrentAction::pickup(
        leaf(),
        gone,
        &Facing { direction: Direction::East },
        origin(),
        east_tile(),
    );
    pickup.timer.tick(500);
    pickup.just_started = false;
    let mut units = vec![a_unit(pickup, Goal::Pickup(leaf()))];
    let item_manifest = ItemManifest::new();
    let unit_manifest = unit_manifest();
    let signals = Signals::new();
    finish_actions(&mut units, &mut world, &item_manifest, &unit_manifest, &signals);
    assert_eq!(units[0].goal, Goal::Wander);
    assert_eq!(units[0].unit_inventory.held_item, None);
}

#[test]
fn finished_demolition_razes_the_structure() {
    let doomed = Entity { value: 5 };
    let mut map = MapGeometry::new();
    map.add_valid(east_tile());
    map.add_structure(&vec![east_tile()], doomed);
    let mut world = World {
        map,
        entities: vec![WorldEntity {
            entity: doomed,
            tile_pos: east_tile(),
            structure_id: StructureId { value: 100 },
            is_ghost: false,
            input: None,
            output: None,
            storage: None,
            crafting_state: None,
            workers_present: None,
            marked_for_demolition: true,
        }],
        next_entity: 6,
    };
    let mut demolish = CurrentAction::demolish(doomed);
    demolish.timer.tick(1000);
    demolish.just_started = false;
    let mut units = vec![a_unit(demolish, Goal::Demolish(StructureId { value: 100 }))];
    let item_manifest = ItemManifest::new();
    let unit_manifest = unit_manifest();
    let signals = Signals::new();
    finish_actions(&mut units, &mut world, &item_manifest, &unit_manifest, &signals);
    assert_eq!(world.map.get_structure(east_tile()), None);
    assert!(world.entities.is_empty());
    assert_eq!(units[0].goal, Goal::Wander);
}
