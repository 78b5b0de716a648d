//! Footprints of structures and the kinds of ghostly stand-ins shown while
//! building.

use vstd::prelude::*;

use crate::geometry::{Facing, TilePos, MAX_COORD};

verus! {

/// What a translucent stand-in for a structure represents.
#[derive(Clone, Copy, Debug, PartialEq, Eq, Structural)]
pub enum GhostKind {
    /// A structure queued for construction.
    Construction,
    /// A preview of a structure that could be built here.
    Preview,
    /// A preview of a structure that cannot be built here.
    ForbiddenPreview,
}

/// An offset stays within the coordinate range closed under hex rotation.
pub open spec fn offset_in_range(t: TilePos) -> bool {
    &&& -MAX_COORD <= t.q <= MAX_COORD
    &&& -MAX_COORD <= t.r <= MAX_COORD
    &&& -MAX_COORD <= t.q + t.r <= MAX_COORD
}

/// One 60-degree counterclockwise rotation of an axial offset.
pub open spec fn spec_rotate_left_once(t: TilePos) -> TilePos {
    TilePos { q: (t.q + t.r) as i64, r: (-t.q) as i64 }
}

/// `k` 60-degree counterclockwise rotations of an axial offset.
pub open spec fn spec_rotate_left(t: TilePos, k: int) -> TilePos
    decreases k,
{
    if k <= 0 {
        t
    } else {
        spec_rotate_left_once(spec_rotate_left(t, k - 1))
    }
}

/// Rotation keeps offsets in range.
pub proof fn lemma_rotate_in_range(t: TilePos, k: int)
    requires
        offset_in_range(t),
        k >= 0,
    ensures
        offset_in_range(spec_rotate_left(t, k)),
    decreases k,
{
    if k > 0 {
        lemma_rotate_in_range(t, k - 1);
    }
}

/// Rotation is injective: distinct offsets stay distinct.
pub proof fn lemma_rotate_injective(a: TilePos, b: TilePos, k: int)
    requires
        offset_in_range(a),
        offset_in_range(b),
        k >= 0,
        a != b,
    ensures
        spec_rotate_left(a, k) != spec_rotate_left(b, k),
    decreases k,
{
    if k > 0 {
        lemma_rotate_injective(a, b, k - 1);
        lemma_rotate_in_range(a, k - 1);
        lemma_rotate_in_range(b, k - 1);
    }
}

/// The tiles taken up by a structure, as offsets from its anchor tile.
#[derive(Clone, Debug, PartialEq, Eq)]
pub struct Footprint {
    /// The offsets of the occupied tiles; the anchor itself is offset (0, 0).
    pub offsets: Vec<TilePos>,
}

impl Footprint {
    /// Offsets are distinct and in the rotation-closed coordinate range.
    pub open spec fn wf(&self) -> bool {
        &&& forall|i: int, j: int|
            0 <= i < j < self.offsets@.len() ==> self.offsets@[i] != self.offsets@[j]
        &&& forall|i: int| 0 <= i < self.offsets@.len() ==> offset_in_range(#[trigger] self.offsets@[i])
    }

    /// A footprint of a single tile.
    pub fn single() -> (result: Footprint)
        ensures
            result.wf(),
            result.offsets@.len() == 1,
            result.offsets@[0] == (TilePos { q: 0, r: 0 }),
    {
        let mut offsets: Vec<TilePos> = Vec::new();
        offsets.push(TilePos { q: 0, r: 0 });
        Footprint { offsets }
    }

    /// A filled hexagon of the given radius around the anchor; radius one is
    /// the anchor and its six neighbors.
    pub fn hexagon(radius: u8) -> (result: Footprint)
        requires
            radius <= 1,
        ensures
            result.wf(),
            radius == 0 ==> result.offsets@.len() == 1,
            radius == 1 ==> result.offsets@.len() == 7,
            result.offsets@[0] == (TilePos { q: 0, r: 0 }),
    {
        let mut offsets: Vec<TilePos> = Vec::new();
        offsets.push(TilePos { q: 0, r: 0 });
        if radius == 1 {
            offsets.push(TilePos { q: 1, r: 0 });
            offsets.push(TilePos { q: 1, r: -1 });
            offsets.push(TilePos { q: 0, r: -1 });
            offsets.push(TilePos { q: -1, r: 0 });
            offsets.push(TilePos { q: -1, r: 1 });
            offsets.push(TilePos { q: 0, r: 1 });
        }
        Footprint { offsets }
    }

    /// The footprint turned to match `facing`: every offset is rotated by as
    /// many 60-degree steps as the facing is from east.
    pub fn rotated(&self, facing: Facing) -> (result: Footprint)
        requires
            self.wf(),
        ensures
            result.wf(),
            result.offsets@.len() == self.offsets@.len(),
            forall|i: int|
                0 <= i < self.offsets@.len() ==> result.offsets@[i] == spec_rotate_left(
                    self.offsets@[i],
                    facing.direction.spec_index(),
                ),
    {
        let steps: usize = match facing.direction {
            crate::geometry::Direction::East => 0,
            crate::geometry::Direction::NorthEast => 1,
            crate::geometry::Direction::NorthWest => 2,
            crate::geometry::Direction::West => 3,
            crate::geometry::Direction::SouthWest => 4,
            crate::geometry::Direction::SouthEast => 5,
        };
        let ghost k = facing.direction.spec_index();
        let n = self.offsets.len();
        let mut offsets: Vec<TilePos> = Vec::new();
        let mut i: usize = 0;
        while i < n
            invariant
                n == self.offsets@.len(),
                i <= n,
                self.wf(),
                steps == k,
                0 <= k <= 5,
                offsets@.len() == i,
                forall|m: int|
                    0 <= m < i ==> offsets@[m] == spec_rotate_left(self.offsets@[m], k),
            decreases n - i,
        {
            let mut t = self.offsets[i];
            proof {
                lemma_rotate_in_range(self.offsets@[i as int], 0);
            }
            let mut s: usize = 0;
            while s < steps
                invariant
                    s <= steps,
                    steps == k,
                    0 <= k <= 5,
                    offset_in_range(self.offsets@[i as int]),
                    t == spec_rotate_left(self.offsets@[i as int], s as int),
                    offset_in_range(t),
                decreases steps - s,
            {
                t = TilePos { q: t.q + t.r, r: -t.q };
                proof {
                    lemma_rotate_in_range(self.offsets@[i as int], s as int + 1);
                }
                s += 1;
            }
            offsets.push(t);
            i += 1;
        }
        let result = Footprint { offsets };
        proof {
            assert forall|a: int, b: int|
                0 <= a < b < result.offsets@.len() implies result.offsets@[a]
                != result.offsets@[b] by {
                lemma_rotate_injective(self.offsets@[a], self.offsets@[b], k);
            }
            assert forall|a: int|
                0 <= a < result.offsets@.len() implies offset_in_range(
                #[trigger] result.offsets@[a],
            ) by {
                lemma_rotate_in_range(self.offsets@[a], k);
            }
        }
        result
    }
}

} // verus!
