//! The goals a unit can pursue.

use vstd::prelude::*;

use crate::ids::{ItemId, StructureId};

verus! {

/// The high-level objective a unit is currently pursuing.  Exactly one goal
/// is active per unit; the finish phase of the tick driver replaces it when
/// an action completes or fails.
#[derive(Clone, Copy, Debug, PartialEq, Eq, Structural)]
pub enum Goal {
    /// Roam with no particular purpose.
    Wander,
    /// Find and collect the given item.
    Pickup(ItemId),
    /// Put the carried item into any container that stores it.
    Store(ItemId),
    /// Bring the carried item to a container that consumes it.
    Deliver(ItemId),
    /// Find and eat the given item.
    Eat(ItemId),
    /// Work at a structure of the given variety.
    Work(StructureId),
    /// Tear down a structure of the given variety.
    Demolish(StructureId),
}

impl Default for Goal {
    /// The goal a unit falls back to when an action completes or fails with
    /// nothing better to do.
    fn default() -> (result: Goal)
        ensures
            result == Goal::Wander,
    {
        Goal::Wander
    }
}

} // verus!
