//! The timed action state machine: durations, the countdown, rotation, and
//! pretty formatting.

use emergence_lib::actions::{CurrentAction, Timer, UnitAction};
use emergence_lib::geometry::{
    Direction, Facing, MapGeometry, RotationDirection, TilePos,
};
use emergence_lib::ids::{Entity, ItemId};
use emergence_lib::items::{ItemData, ItemManifest};
use emergence_lib::terrain::{TerrainData, TerrainManifest};

fn leaf() -> ItemId {
    ItemId { value: 1 }
}

#[test]
fn constructors_use_the_documented_durations() {
    assert_eq!(CurrentAction::idle().timer.remaining_ms, 100);
    assert_eq!(CurrentAction::spin(RotationDirection::Left).timer.remaining_ms, 100);
    assert_eq!(CurrentAction::eat().timer.remaining_ms, 500);
    assert_eq!(CurrentAction::work(Entity { value: 3 }).timer.remaining_ms, 1000);
    assert_eq!(CurrentAction::demolish(Entity { value: 3 }).timer.remaining_ms, 1000);
    assert_eq!(CurrentAction::abandon().timer.remaining_ms, 100);
    assert!(CurrentAction::idle().just_started);
}

#[test]
fn timer_counts_down_and_saturates_at_zero() {
    let mut timer = Timer::from_millis(300);
    assert!(!timer.finished());
    timer.tick(200);
    assert_eq!(timer.remaining_ms, 100);
    timer.tick(250);
    assert_eq!(timer.remaining_ms, 0);
    assert!(timer.finished());
}

#[test]
fn finished_stays_finished_after_more_ticks() {
    // Advancing the timer past zero repeatedly never un-finishes it.
    let mut timer = Timer::from_millis(100);
    timer.tick(100);
    assert!(timer.finished());
    timer.tick(1000);
    assert!(timer.finished());
    timer.tick(0);
    assert!(timer.finished());
}

#[test]
fn spin_towards_takes_the_shorter_way() {
    let facing_east = Facing { direction: Direction::East };
    // Two left turns against four right turns: turn left.
    let left = CurrentAction::spin_towards(&facing_east, Direction::NorthWest);
    assert_eq!(
        left.action,
        UnitAction::Spin { rotation_direction: RotationDirection::Left },
    );
    // One right turn against five left turns: turn right.
    let right = CurrentAction::spin_towards(&facing_east, Direction::SouthEast);
    assert_eq!(
        right.action,
        UnitAction::Spin { rotation_direction: RotationDirection::Right },
    );
    // A tie (three turns either way) is broken toward the left.
    let tie = CurrentAction::spin_towards(&facing_east, Direction::West);
    assert_eq!(
        tie.action,
        UnitAction::Spin { rotation_direction: RotationDirection::Left },
    );
}

#[test]
fn move_forward_scales_duration_by_terrain_speed() {
    let origin = TilePos { q: 0, r: 0 };
    let ahead = TilePos { q: 1, r: 0 };
    let mut map = MapGeometry::new();
    map.add_valid(origin);
    map.add_valid(ahead);
    let muddy = emergence_lib::ids::TerrainId { value: 7 };
    map.add_terrain(origin, muddy);
    let mut terrain_manifest = TerrainManifest::new();
    assert!(terrain_manifest.insert(muddy, TerrainData { walking_speed_percent: 200 }));

    let action = CurrentAction::move_forward(
        origin,
        &Facing { direction: Direction::East },
        &map,
        &terrain_manifest,
    );
    // Twice the standard speed halves the standard 500 ms walk.
    assert_eq!(action.action, UnitAction::MoveForward);
    assert_eq!(action.timer.remaining_ms, 250);
}

#[test]
fn move_forward_substitutes_idle_on_impassable_ground() {
    let origin = TilePos { q: 0, r: 0 };
    let mut map = MapGeometry::new();
    map.add_valid(origin);
    // The tile ahead is not part of the map at all.
    let terrain_manifest = TerrainManifest::new();
    let action = CurrentAction::move_forward(
        origin,
        &Facing { direction: Direction::East },
        &map,
        &terrain_manifest,
    );
    assert_eq!(action.action, UnitAction::Idle);
    assert_eq!(action.timer.remaining_ms, 100);
}

#[test]
fn workplace_lists_the_seat_holding_targets() {
    let e = Entity { value: 9 };
    assert_eq!(UnitAction::Work { structure_entity: e }.workplace(), Some(e));
    assert_eq!(UnitAction::Demolish { structure_entity: e }.workplace(), Some(e));
    assert_eq!(
        UnitAction::PickUp { item_id: leaf(), output_entity: e }.workplace(),
        Some(e),
    );
    assert_eq!(
        UnitAction::DropOff { item_id: leaf(), input_entity: e }.workplace(),
        Some(e),
    );
    assert_eq!(UnitAction::Idle.workplace(), None);
    assert_eq!(UnitAction::MoveForward.workplace(), None);
}

#[test]
fn action_display_is_exact() {
    let mut manifest = ItemManifest::new();
    assert!(manifest.insert(
        leaf(),
        ItemData { name: "acacia_leaf".to_string(), stack_size: 10 },
    ));
    let pickup = UnitAction::PickUp { item_id: leaf(), output_entity: Entity { value: 42 } };
    assert_eq!(
        pickup.display(&manifest),
        "Picking up acacia_leaf from 42".to_string(),
    );
    assert_eq!(UnitAction::Idle.display(&manifest), "Idling".to_string());
    assert_eq!(
        UnitAction::Spin { rotation_direction: RotationDirection::Right }.display(&manifest),
        "Spinning right".to_string(),
    );
}

#[test]
fn current_action_display_shows_remaining_seconds() {
    let manifest = ItemManifest::new();
    let idle = CurrentAction::idle();
    assert_eq!(
        idle.display(&manifest),
        "Idling\nRemaining: 0.10 s.".to_string(),
    );
    let mut eat = CurrentAction::eat();
    eat.timer.tick(123);
    assert_eq!(
        eat.display(&manifest),
        "Eating\nRemaining: 0.37 s.".to_string(),
    );
}

#[test]
fn decimal_rendering_is_exact() {
    assert_eq!(emergence_lib::text::u64_to_string(0), "0".to_string());
    assert_eq!(emergence_lib::text::u64_to_string(42), "42".to_string());
    assert_eq!(emergence_lib::text::u64_to_string(1000), "1000".to_string());
}
