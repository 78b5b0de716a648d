//! The stigmergic signal field, read through a single gradient query.
//!
//! The field itself (decay, diffusion) is maintained outside the engine; the
//! engine only reads per-tile strengths and asks for the best upstream
//! neighbor: the first neighbor, in the fixed direction order, whose relevant
//! signal is strongest, provided it is strictly stronger than the signal on
//! the tile the unit stands on.

use vstd::prelude::*;

use crate::geometry::{tile_in_range, Direction, MapGeometry, TilePos};
use crate::goals::Goal;
use crate::ids::{ItemId, StructureId};

verus! {

/// What a signal advertises.
#[derive(Clone, Copy, Debug, PartialEq, Eq, Structural)]
pub enum SignalType {
    /// An item of this variety can be picked up nearby.
    Push(ItemId),
    /// An item of this variety is wanted nearby.
    Pull(ItemId),
    /// A structure of this variety wants workers.
    Work(StructureId),
    /// A structure of this variety waits for demolition.
    Demolish(StructureId),
}

impl SignalType {
    /// The signal a unit follows when pursuing `goal`, if any.
    pub open spec fn spec_for_goal(goal: Goal) -> Option<SignalType> {
        match goal {
            Goal::Wander => None,
            Goal::Pickup(item) => Some(SignalType::Push(item)),
            Goal::Eat(item) => Some(SignalType::Push(item)),
            Goal::Store(item) => Some(SignalType::Pull(item)),
            Goal::Deliver(item) => Some(SignalType::Pull(item)),
            Goal::Work(structure) => Some(SignalType::Work(structure)),
            Goal::Demolish(structure) => Some(SignalType::Demolish(structure)),
        }
    }

    /// The signal a unit follows when pursuing `goal`, if any.
    pub fn for_goal(goal: Goal) -> (result: Option<SignalType>)
        ensures
            result == Self::spec_for_goal(goal),
    {
        match goal {
            Goal::Wander => None,
            Goal::Pickup(item) => Some(SignalType::Push(item)),
            Goal::Eat(item) => Some(SignalType::Push(item)),
            Goal::Store(item) => Some(SignalType::Pull(item)),
            Goal::Deliver(item) => Some(SignalType::Pull(item)),
            Goal::Work(structure) => Some(SignalType::Work(structure)),
            Goal::Demolish(structure) => Some(SignalType::Demolish(structure)),
        }
    }
}

/// One recorded signal strength.
#[derive(Clone, Copy, Debug, PartialEq, Eq, Structural)]
pub struct SignalEntry {
    /// The signal the entry is about.
    pub signal_type: SignalType,
    /// The tile the entry is about.
    pub tile_pos: TilePos,
    /// The strength of that signal on that tile; zero entries may be omitted.
    pub strength: u64,
}

/// A snapshot of the signal field.
#[derive(Clone, Debug, PartialEq, Eq)]
pub struct Signals {
    /// The recorded strengths, at most one entry per signal and tile.
    pub entries: Vec<SignalEntry>,
}

impl Signals {
    /// Each (signal, tile) pair is recorded at most once.
    pub open spec fn wf(&self) -> bool {
        forall|i: int, j: int|
            0 <= i < j < self.entries@.len() ==> !(self.entries@[i].signal_type
                == self.entries@[j].signal_type && self.entries@[i].tile_pos
                == self.entries@[j].tile_pos)
    }

    /// The recorded strength of `signal_type` on `tile_pos`, zero by default.
    pub open spec fn spec_get(&self, signal_type: SignalType, tile_pos: TilePos) -> u64 {
        if exists|i: int|
            0 <= i < self.entries@.len() && self.entries@[i].signal_type == signal_type
                && self.entries@[i].tile_pos == tile_pos {
            self.entries@[choose|i: int|
                0 <= i < self.entries@.len() && self.entries@[i].signal_type == signal_type
                    && self.entries@[i].tile_pos == tile_pos].strength
        } else {
            0
        }
    }

    /// Whether this snapshot satisfies its well-formedness condition;
    /// checked at run time when a field is assembled from untrusted input.
    pub fn check_wf(&self) -> (result: bool)
        ensures
            result == self.wf(),
    {
        let n = self.entries.len();
        let mut a: usize = 0;
        while a < n
            invariant
                n == self.entries@.len(),
                a <= n,
                forall|k: int, l: int|
                    0 <= k < l < a ==> !(self.entries@[k].signal_type
                        == self.entries@[l].signal_type && self.entries@[k].tile_pos
                        == self.entries@[l].tile_pos),
            decreases n - a,
        {
            let mut b: usize = 0;
            while b < a
                invariant
                    b <= a < n,
                    n == self.entries@.len(),
                    forall|k: int|
                        0 <= k < b ==> !(self.entries@[k].signal_type == self.entries@[
                            a as int
                        ].signal_type && self.entries@[k].tile_pos == self.entries@[
                            a as int
                        ].tile_pos),
                    forall|k: int, l: int|
                        0 <= k < l < a ==> !(self.entries@[k].signal_type
                            == self.entries@[l].signal_type && self.entries@[k].tile_pos
                            == self.entries@[l].tile_pos),
                decreases a - b,
            {
                if self.entries[b].signal_type == self.entries[a].signal_type
                    && self.entries[b].tile_pos == self.entries[a].tile_pos {
                    return false;
                }
                b += 1;
            }
            a += 1;
        }
        true
    }

    /// An empty signal field.
    pub fn new() -> (result: Signals)
        ensures
            result.wf(),
            result.entries@.len() == 0,
    {
        Signals { entries: Vec::new() }
    }

    /// Records the strength of `signal_type` on `tile_pos`; succeeds
    /// exactly when that pair has no entry yet.
    pub fn insert(&mut self, signal_type: SignalType, tile_pos: TilePos, strength: u64) -> (result:
        bool)
        requires
            old(self).wf(),
        ensures
            final(self).wf(),
            result <==> !exists|i: int|
                0 <= i < old(self).entries@.len() && old(self).entries@[i].signal_type
                    == signal_type && old(self).entries@[i].tile_pos == tile_pos,
            result ==> final(self).entries@ == old(self).entries@.push(
                SignalEntry { signal_type, tile_pos, strength },
            ),
            !result ==> *final(self) == *old(self),
    {
        let n = self.entries.len();
        let mut i: usize = 0;
        while i < n
            invariant
                n == self.entries@.len(),
                i <= n,
                self.wf(),
                *self == *old(self),
                forall|k: int|
                    0 <= k < i ==> !(self.entries@[k].signal_type == signal_type
                        && self.entries@[k].tile_pos == tile_pos),
            decreases n - i,
        {
            if self.entries[i].signal_type == signal_type && self.entries[i].tile_pos == tile_pos {
                return false;
            }
            i += 1;
        }
        self.entries.push(SignalEntry { signal_type, tile_pos, strength });
        true
    }

    /// The strength of `signal_type` on `tile_pos`, zero when unrecorded.
    pub fn get(&self, signal_type: SignalType, tile_pos: TilePos) -> (result: u64)
        requires
            self.wf(),
        ensures
            result == self.spec_get(signal_type, tile_pos),
    {
        let n = self.entries.len();
        let mut i: usize = 0;
        while i < n
            invariant
                n == self.entries@.len(),
                i <= n,
                self.wf(),
                forall|k: int|
                    0 <= k < i ==> !(self.entries@[k].signal_type == signal_type
                        && self.entries@[k].tile_pos == tile_pos),
            decreases n - i,
        {
            if self.entries[i].signal_type == signal_type && self.entries[i].tile_pos == tile_pos {
                return self.entries[i].strength;
            }
            i += 1;
        }
        0
    }

    /// The strongest valid neighbor seen while scanning the first `k`
    /// directions, together with its strength; earlier directions win ties.
    pub open spec fn spec_best_neighbor(
        &self,
        map: &MapGeometry,
        pos: TilePos,
        signal_type: SignalType,
        k: int,
    ) -> Option<(TilePos, u64)>
        decreases k,
    {
        if k <= 0 {
            None
        } else {
            let prev = self.spec_best_neighbor(map, pos, signal_type, k - 1);
            let t = pos.spec_neighbor(Direction::spec_from_index(k - 1));
            if !map.spec_is_valid(t) {
                prev
            } else {
                let s = self.spec_get(signal_type, t);
                match prev {
                    None => Some((t, s)),
                    Some((bt, bs)) => if s > bs {
                        Some((t, s))
                    } else {
                        prev
                    },
                }
            }
        }
    }

    /// Where `upstream` leads for a unit on `pos` pursuing `goal`.
    pub open spec fn spec_upstream(&self, map: &MapGeometry, pos: TilePos, goal: Goal) -> Option<
        TilePos,
    > {
        match SignalType::spec_for_goal(goal) {
            None => None,
            Some(signal_type) => match self.spec_best_neighbor(map, pos, signal_type, 6) {
                None => None,
                Some((t, s)) => if s > self.spec_get(signal_type, pos) {
                    Some(t)
                } else {
                    None
                },
            },
        }
    }

    /// The best upstream neighbor for a unit on `pos` pursuing `goal`: the
    /// first valid neighbor (in the fixed direction order) with the strongest
    /// relevant signal, provided that signal is strictly stronger than on
    /// `pos` itself.  `None` when no gradient exists or the goal follows no
    /// signal.
    pub fn upstream(&self, pos: TilePos, goal: &Goal, map: &MapGeometry) -> (result: Option<
        TilePos,
    >)
        requires
            self.wf(),
            tile_in_range(pos),
        ensures
            result == self.spec_upstream(map, pos, *goal),
            result matches Some(t) ==> pos.spec_is_adjacent(t) && map.spec_is_valid(t),
    {
        let signal_type = match SignalType::for_goal(*goal) {
            None => {
                return None;
            },
            Some(s) => s,
        };
        let neighbors = pos.all_neighbors();
        let mut best: Option<(TilePos, u64)> = None;
        let mut k: usize = 0;
        while k < 6
            invariant
                self.wf(),
                tile_in_range(pos),
                neighbors@.len() == 6,
                forall|j: int|
                    0 <= j < 6 ==> neighbors@[j] == pos.spec_neighbor(
                        Direction::spec_from_index(j),
                    ),
                k <= 6,
                best == self.spec_best_neighbor(map, pos, signal_type, k as int),
                best matches Some(p) ==> pos.spec_is_adjacent(p.0) && map.spec_is_valid(p.0),
            decreases 6 - k,
        {
            let t = neighbors[k];
            if map.is_valid(t) {
                let s = self.get(signal_type, t);
                proof {
                    assert(pos.spec_neighbor(Direction::spec_from_index(k as int)) == t);
                }
                match best {
                    None => {
                        best = Some((t, s));
                    },
                    Some((_bt, bs)) => {
                        if s > bs {
                            best = Some((t, s));
                        }
                    },
                }
            }
            k += 1;
        }
        match best {
            None => None,
            Some((t, s)) => {
                if s > self.get(signal_type, pos) {
                    Some(t)
                } else {
                    None
                }
            },
        }
    }
}

} // verus!
