//! Units: their carried item, energy, impatience, growth bookkeeping, and
//! the read-only unit manifest.

use vstd::prelude::*;

use crate::actions::CurrentAction;
use crate::geometry::{Facing, TilePos};
use crate::goals::Goal;
use crate::ids::{ItemId, UnitTypeId};

verus! {

/// What a unit is holding: nothing, or exactly one item of one variety.
/// A unit's inventory is a single-item slot, not a stack.
#[derive(Clone, Copy, Debug, PartialEq, Eq, Structural)]
pub struct UnitInventory {
    /// The variety of the single carried item, if any.
    pub held_item: Option<ItemId>,
}

impl UnitInventory {
    /// How many items the unit carries: one when something is held, zero
    /// otherwise.
    pub open spec fn spec_carried_count(&self) -> int {
        match self.held_item {
            Some(_) => 1,
            None => 0,
        }
    }
}

/// A unit carries at most one item at any time: its inventory is a single
/// optional slot with an implicit count of one, never more.
pub proof fn lemma_carried_at_most_one(inventory: UnitInventory)
    ensures
        0 <= inventory.spec_carried_count() <= 1,
        inventory.held_item is Some <==> inventory.spec_carried_count() == 1,
{
}

/// A unit's energy reserve.
#[derive(Clone, Copy, Debug, PartialEq, Eq, Structural)]
pub struct EnergyPool {
    /// The energy currently available.
    pub current: u64,
    /// The most energy the unit can store.
    pub max: u64,
}

impl EnergyPool {
    /// The reserve never exceeds its capacity.
    pub open spec fn wf(&self) -> bool {
        self.current <= self.max
    }

    /// A full reserve of the given capacity.
    pub fn new_full(max: u64) -> (result: EnergyPool)
        ensures
            result.wf(),
            result.current == max,
            result.max == max,
    {
        EnergyPool { current: max, max }
    }

    /// The energy currently available.
    pub fn current(&self) -> (result: u64)
        ensures
            result == self.current,
    {
        self.current
    }

    /// Sets the reserve to `proposed`, clamped to the capacity.
    pub fn set_current(&mut self, proposed: u64)
        requires
            old(self).wf(),
        ensures
            final(self).wf(),
            final(self).max == old(self).max,
            final(self).current == (if proposed <= old(self).max {
                proposed
            } else {
                old(self).max
            }),
    {
        if proposed <= self.max {
            self.current = proposed;
        } else {
            self.current = self.max;
        }
    }
}

/// How frustrated a unit is about not making progress toward its goal.
#[derive(Clone, Copy, Debug, PartialEq, Eq, Structural)]
pub struct ImpatiencePool {
    /// The current frustration level.
    pub current: u8,
    /// The level at which the unit gives its goal up (tracked outside the
    /// engine); the pool saturates here.
    pub max: u8,
}

impl ImpatiencePool {
    /// The level never exceeds its bound.
    pub open spec fn wf(&self) -> bool {
        self.current <= self.max
    }

    /// A calm pool with the given bound.
    pub fn new(max: u8) -> (result: ImpatiencePool)
        ensures
            result.wf(),
            result.current == 0,
            result.max == max,
    {
        ImpatiencePool { current: 0, max }
    }

    /// Raises the frustration level by one, saturating at the bound.
    pub fn increment(&mut self)
        requires
            old(self).wf(),
        ensures
            final(self).wf(),
            final(self).max == old(self).max,
            old(self).current < old(self).max ==> final(self).current == old(self).current + 1,
            old(self).current == old(self).max ==> final(self).current == old(self).current,
    {
        if self.current < self.max {
            self.current = self.current + 1;
        }
    }
}

/// A unit's progress toward its next form.
#[derive(Clone, Copy, Debug, PartialEq, Eq, Structural)]
pub struct Lifecycle {
    /// The total energy gained so far, saturating at the counter's bound.
    pub energy_gained: u64,
}

impl Lifecycle {
    /// A lifecycle with no recorded progress.
    pub fn new() -> (result: Lifecycle)
        ensures
            result.energy_gained == 0,
    {
        Lifecycle { energy_gained: 0 }
    }

    /// Records that the unit gained `energy`.
    pub fn record_energy_gained(&mut self, energy: u64)
        ensures
            old(self).energy_gained + energy <= u64::MAX ==> final(self).energy_gained == old(
                self,
            ).energy_gained + energy,
            old(self).energy_gained + energy > u64::MAX ==> final(self).energy_gained
                == u64::MAX,
    {
        if energy <= u64::MAX - self.energy_gained {
            self.energy_gained = self.energy_gained + energy;
        } else {
            self.energy_gained = u64::MAX;
        }
    }
}

/// What a unit variety eats and how much energy that gives.
#[derive(Clone, Copy, Debug, PartialEq, Eq, Structural)]
pub struct Diet {
    /// The item variety this unit eats.
    pub item: ItemId,
    /// The energy gained per item eaten.
    pub energy: u64,
}

impl Diet {
    /// A diet of `item` worth `energy` per item.
    pub fn new(item: ItemId, energy: u64) -> (result: Diet)
        ensures
            result.item == item,
            result.energy == energy,
    {
        Diet { item, energy }
    }

    /// The item variety this unit eats.
    pub fn item(&self) -> (result: ItemId)
        ensures
            result == self.item,
    {
        self.item
    }

    /// The energy gained per item eaten.
    pub fn energy(&self) -> (result: u64)
        ensures
            result == self.energy,
    {
        self.energy
    }
}

/// Everything the engine reads about one unit variety.
#[derive(Clone, Copy, Debug, PartialEq, Eq, Structural)]
pub struct UnitData {
    /// What this unit eats.
    pub diet: Diet,
    /// The frustration bound for this unit variety.
    pub max_impatience: u8,
}

/// One manifest entry: a unit variety identifier together with its data.
#[derive(Clone, Copy, Debug, PartialEq, Eq, Structural)]
pub struct UnitEntry {
    /// The identifier the entry describes.
    pub id: UnitTypeId,
    /// The data recorded for that identifier.
    pub data: UnitData,
}

/// The read-only lookup table of all unit varieties.
#[derive(Clone, Debug, PartialEq, Eq)]
pub struct UnitManifest {
    /// One entry per unit variety.
    pub entries: Vec<UnitEntry>,
}

impl UnitManifest {
    /// Each identifier appears at most once.
    pub open spec fn wf(&self) -> bool {
        forall|i: int, j: int|
            0 <= i < j < self.entries@.len() ==> self.entries@[i].id != self.entries@[j].id
    }

    /// The data recorded for `id`, if any.
    pub open spec fn spec_get(&self, id: UnitTypeId) -> Option<UnitData> {
        if exists|i: int| 0 <= i < self.entries@.len() && self.entries@[i].id == id {
            Some(
                self.entries@[choose|i: int|
                    0 <= i < self.entries@.len() && self.entries@[i].id == id].data,
            )
        } else {
            None
        }
    }

    /// An empty manifest.
    pub fn new() -> (result: UnitManifest)
        ensures
            result.wf(),
            result.entries@.len() == 0,
    {
        UnitManifest { entries: Vec::new() }
    }

    /// Records `data` for `id`; succeeds exactly when the identifier is
    /// not yet present.
    pub fn insert(&mut self, id: UnitTypeId, data: UnitData) -> (result: bool)
        requires
            old(self).wf(),
        ensures
            final(self).wf(),
            result <==> old(self).spec_get(id) is None,
            result ==> final(self).entries@ == old(self).entries@.push(UnitEntry { id, data }),
            !result ==> *final(self) == *old(self),
    {
        let n = self.entries.len();
        let mut i: usize = 0;
        while i < n
            invariant
                n == self.entries@.len(),
                i <= n,
                forall|k: int| 0 <= k < i ==> self.entries@[k].id != id,
                self.wf(),
                *self == *old(self),
            decreases n - i,
        {
            if self.entries[i].id == id {
                return false;
            }
            i += 1;
        }
        self.entries.push(UnitEntry { id, data });
        true
    }

    /// The data recorded for `id`, if any.
    pub fn get(&self, id: UnitTypeId) -> (result: Option<UnitData>)
        requires
            self.wf(),
        ensures
            result == self.spec_get(id),
    {
        let n = self.entries.len();
        let mut i: usize = 0;
        while i < n
            invariant
                n == self.entries@.len(),
                i <= n,
                self.wf(),
                forall|k: int| 0 <= k < i ==> self.entries@[k].id != id,
            decreases n - i,
        {
            if self.entries[i].id == id {
                return Some(self.entries[i].data);
            }
            i += 1;
        }
        None
    }
}

/// One autonomous agent and everything the engine tracks about it.
#[derive(Clone, Copy, Debug, PartialEq, Eq, Structural)]
pub struct Unit {
    /// The variety of this unit.
    pub unit_id: UnitTypeId,
    /// The tile the unit stands on.
    pub tile_pos: TilePos,
    /// The direction the unit faces.
    pub facing: Facing,
    /// The objective the unit pursues.
    pub goal: Goal,
    /// The timed action the unit is executing.
    pub current_action: CurrentAction,
    /// The single-item slot the unit carries things in.
    pub unit_inventory: UnitInventory,
    /// The unit's energy reserve.
    pub energy_pool: EnergyPool,
    /// How frustrated the unit is.
    pub impatience: ImpatiencePool,
    /// The unit's progress toward its next form.
    pub lifecycle: Lifecycle,
}

impl Unit {
    /// Component values are within their invariants and the position is in
    /// coordinate range.
    pub open spec fn wf(&self) -> bool {
        &&& crate::geometry::tile_in_range(self.tile_pos)
        &&& self.energy_pool.wf()
        &&& self.impatience.wf()
    }
}

} // verus!
