//! Workplace admission: capacity-gated seats at structures, and the coarse
//! crafting state the engine reads to decide whether work is still useful.

use vstd::prelude::*;

verus! {

/// Where a structure's crafting process currently stands.  The engine only
/// ever asks whether it is `InProgress`; the other states mean that work on
/// it is pointless right now.
#[derive(Clone, Copy, Debug, PartialEq, Eq, Structural)]
pub enum CraftingState {
    /// No recipe is selected.
    NoRecipe,
    /// Ingredients are still missing.
    NeedsInput,
    /// The recipe is being crafted and benefits from workers.
    InProgress,
    /// The output is waiting to be picked up.
    RecipeComplete,
}

/// The workplace was full; no seat was taken.
#[derive(Clone, Copy, Debug, PartialEq, Eq, Structural)]
pub struct SeatUnavailable;

/// How many units are working at a structure, bounded by the number of seats
/// the structure offers.
#[derive(Clone, Copy, Debug, PartialEq, Eq, Structural)]
pub struct WorkersPresent {
    /// How many workers hold a seat right now.
    pub current: u8,
    /// How many seats the structure offers.
    pub max: u8,
}

impl WorkersPresent {
    /// The number of seated workers never exceeds the number of seats.
    pub open spec fn wf(&self) -> bool {
        self.current <= self.max
    }

    /// A workplace with `max` seats, all free.
    pub fn new(max: u8) -> (result: WorkersPresent)
        ensures
            result.wf(),
            result.current == 0,
            result.max == max,
    {
        WorkersPresent { current: 0, max }
    }

    /// How many workers hold a seat right now.
    pub fn current(&self) -> (result: u8)
        ensures
            result == self.current,
    {
        self.current
    }

    /// Whether another worker would still find a free seat.
    pub fn needs_more(&self) -> (result: bool)
        ensures
            result == (self.current < self.max),
    {
        self.current < self.max
    }

    /// Seats one more worker; fails without changing anything when every
    /// seat is taken.
    pub fn add_worker(&mut self) -> (result: Result<(), SeatUnavailable>)
        requires
            old(self).wf(),
        ensures
            final(self).wf(),
            final(self).max == old(self).max,
            result is Ok <==> old(self).current < old(self).max,
            result is Ok ==> final(self).current == old(self).current + 1,
            result is Err ==> *final(self) == *old(self),
    {
        if self.current < self.max {
            self.current = self.current + 1;
            Ok(())
        } else {
            Err(SeatUnavailable)
        }
    }

    /// Releases one seat, saturating at zero: a unit may vanish mid-action,
    /// so removal must tolerate not having a matching prior add.
    pub fn remove_worker(&mut self)
        requires
            old(self).wf(),
        ensures
            final(self).wf(),
            final(self).max == old(self).max,
            old(self).current > 0 ==> final(self).current == old(self).current - 1,
            old(self).current == 0 ==> final(self).current == 0,
    {
        if self.current > 0 {
            self.current = self.current - 1;
        }
    }
}

} // verus!
