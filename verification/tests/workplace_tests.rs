//! Workplace admission: capacity-gated seats.

use emergence_lib::crafting::{SeatUnavailable, WorkersPresent};

#[test]
fn full_workplace_refuses_another_worker() {
    let mut seats = WorkersPresent { current: 2, max: 2 };
    let refused = seats.add_worker();
    assert_eq!(refused, Err(SeatUnavailable));
    // Nothing changed.
    assert_eq!(seats, WorkersPresent { current: 2, max: 2 });
    assert!(!seats.needs_more());
}

#[test]
fn seats_fill_one_by_one() {
    let mut seats = WorkersPresent::new(2);
    assert!(seats.needs_more());
    assert!(seats.add_worker().is_ok());
    assert_eq!(seats.current(), 1);
    assert!(seats.needs_more());
    assert!(seats.add_worker().is_ok());
    assert_eq!(seats.current(), 2);
    assert!(!seats.needs_more());
    assert!(seats.add_worker().is_err());
}

#[test]
fn removal_saturates_at_zero() {
    // A unit may vanish mid-action, so removal without a matching prior
    // add must be tolerated.
    let mut seats = WorkersPresent::new(3);
    seats.remove_worker();
    assert_eq!(seats.current(), 0);
    assert!(seats.add_worker().is_ok());
    seats.remove_worker();
    assert_eq!(seats.current(), 0);
    seats.remove_worker();
    assert_eq!(seats.current(), 0);
}
