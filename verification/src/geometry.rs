//! Hex-grid geometry: tile coordinates, the six directions, facing, and the
//! map index that records which tiles are valid, passable and occupied.
//!
//! Tiles are addressed by axial coordinates `(q, r)`.  The six neighbor
//! directions are enumerated in a fixed counterclockwise order starting at
//! `East`; every scan over neighbors in this crate uses that order.

use vstd::prelude::*;

use crate::ids::{Entity, TerrainId};

verus! {

/// Tile coordinates this far from the origin (in either axis) are accepted;
/// the bound keeps all coordinate arithmetic far away from `i64` overflow.
pub const MAX_COORD: i64 = 0x1_0000_0000;

/// The axial coordinates of one hex tile.
#[derive(Clone, Copy, Debug, PartialEq, Eq, Structural)]
pub struct TilePos {
    /// The column coordinate.
    pub q: i64,
    /// The row coordinate, increasing to the south-east.
    pub r: i64,
}

/// Both coordinates are within [`MAX_COORD`] of the origin.
pub open spec fn tile_in_range(t: TilePos) -> bool {
    -MAX_COORD <= t.q <= MAX_COORD && -MAX_COORD <= t.r <= MAX_COORD
}

/// One of the six hex directions, in counterclockwise order from `East`.
#[derive(Clone, Copy, Debug, PartialEq, Eq, Structural)]
pub enum Direction {
    /// Toward increasing `q`.
    East,
    /// Counterclockwise of east.
    NorthEast,
    /// Counterclockwise of north-east.
    NorthWest,
    /// Opposite of east.
    West,
    /// Counterclockwise of west.
    SouthWest,
    /// Counterclockwise of south-west.
    SouthEast,
}

impl Direction {
    /// The position of this direction in the fixed counterclockwise order.
    pub open spec fn spec_index(self) -> int {
        match self {
            Direction::East => 0,
            Direction::NorthEast => 1,
            Direction::NorthWest => 2,
            Direction::West => 3,
            Direction::SouthWest => 4,
            Direction::SouthEast => 5,
        }
    }

    /// The direction whose position in the counterclockwise order is `i`.
    pub open spec fn spec_from_index(i: int) -> Direction {
        if i == 0 {
            Direction::East
        } else if i == 1 {
            Direction::NorthEast
        } else if i == 2 {
            Direction::NorthWest
        } else if i == 3 {
            Direction::West
        } else if i == 4 {
            Direction::SouthWest
        } else {
            Direction::SouthEast
        }
    }

    /// The axial coordinate offset of one step in this direction.
    pub open spec fn spec_offset(self) -> (int, int) {
        match self {
            Direction::East => (1, 0),
            Direction::NorthEast => (1, -1),
            Direction::NorthWest => (0, -1),
            Direction::West => (-1, 0),
            Direction::SouthWest => (-1, 1),
            Direction::SouthEast => (0, 1),
        }
    }

    /// The next direction counterclockwise.
    pub open spec fn spec_left(self) -> Direction {
        Direction::spec_from_index((self.spec_index() + 1) % 6)
    }

    /// The next direction clockwise.
    pub open spec fn spec_right(self) -> Direction {
        Direction::spec_from_index((self.spec_index() + 5) % 6)
    }

    /// The next direction counterclockwise.
    pub fn left(self) -> (result: Direction)
        ensures
            result == self.spec_left(),
    {
        match self {
            Direction::East => Direction::NorthEast,
            Direction::NorthEast => Direction::NorthWest,
            Direction::NorthWest => Direction::West,
            Direction::West => Direction::SouthWest,
            Direction::SouthWest => Direction::SouthEast,
            Direction::SouthEast => Direction::East,
        }
    }

    /// The next direction clockwise.
    pub fn right(self) -> (result: Direction)
        ensures
            result == self.spec_right(),
    {
        match self {
            Direction::East => Direction::SouthEast,
            Direction::SouthEast => Direction::SouthWest,
            Direction::SouthWest => Direction::West,
            Direction::West => Direction::NorthWest,
            Direction::NorthWest => Direction::NorthEast,
            Direction::NorthEast => Direction::East,
        }
    }
}

/// How many counterclockwise steps turn `from` into `to` (0 to 5).
pub open spec fn left_steps(from: Direction, to: Direction) -> int {
    (to.spec_index() - from.spec_index() + 6) % 6
}

/// How many clockwise steps turn `from` into `to` (0 to 5).
pub open spec fn right_steps(from: Direction, to: Direction) -> int {
    (from.spec_index() - to.spec_index() + 6) % 6
}

/// The direction a unit is looking in.
#[derive(Clone, Copy, Debug, PartialEq, Eq, Structural)]
pub struct Facing {
    /// The direction the unit currently faces.
    pub direction: Direction,
}

impl Facing {
    /// Turn 60 degrees counterclockwise.
    pub fn rotate_left(&mut self)
        ensures
            final(self).direction == old(self).direction.spec_left(),
    {
        self.direction = self.direction.left();
    }

    /// Turn 60 degrees clockwise.
    pub fn rotate_right(&mut self)
        ensures
            final(self).direction == old(self).direction.spec_right(),
    {
        self.direction = self.direction.right();
    }
}

/// Which way to turn.
#[derive(Clone, Copy, Debug, PartialEq, Eq, Structural)]
pub enum RotationDirection {
    /// Turn counterclockwise.
    Left,
    /// Turn clockwise.
    Right,
}

impl TilePos {
    /// The tile one step from `self` in `direction`.
    pub open spec fn spec_neighbor(self, direction: Direction) -> TilePos {
        TilePos {
            q: (self.q + direction.spec_offset().0) as i64,
            r: (self.r + direction.spec_offset().1) as i64,
        }
    }

    /// `other` is exactly one step away from `self`.
    pub open spec fn spec_is_adjacent(self, other: TilePos) -> bool {
        exists|d: Direction| self.spec_neighbor(d) == other
    }

    /// The tile one step from `self` in `direction`.
    pub fn neighbor(self, direction: Direction) -> (result: TilePos)
        requires
            tile_in_range(self),
        ensures
            result == self.spec_neighbor(direction),
    {
        match direction {
            Direction::East => TilePos { q: self.q + 1, r: self.r },
            Direction::NorthEast => TilePos { q: self.q + 1, r: self.r - 1 },
            Direction::NorthWest => TilePos { q: self.q, r: self.r - 1 },
            Direction::West => TilePos { q: self.q - 1, r: self.r },
            Direction::SouthWest => TilePos { q: self.q - 1, r: self.r + 1 },
            Direction::SouthEast => TilePos { q: self.q, r: self.r + 1 },
        }
    }

    /// All six neighboring tiles, in the fixed direction order.
    pub fn all_neighbors(self) -> (result: Vec<TilePos>)
        requires
            tile_in_range(self),
        ensures
            result@.len() == 6,
            forall|k: int|
                0 <= k < 6 ==> result@[k] == self.spec_neighbor(
                    Direction::spec_from_index(k),
                ),
    {
        let mut result: Vec<TilePos> = Vec::new();
        result.push(self.neighbor(Direction::East));
        result.push(self.neighbor(Direction::NorthEast));
        result.push(self.neighbor(Direction::NorthWest));
        result.push(self.neighbor(Direction::West));
        result.push(self.neighbor(Direction::SouthWest));
        result.push(self.neighbor(Direction::SouthEast));
        result
    }

    /// The direction that leads from `self` to the adjacent tile `other`.
    pub fn direction_to(self, other: TilePos) -> (result: Direction)
        requires
            tile_in_range(self),
            self.spec_is_adjacent(other),
        ensures
            self.spec_neighbor(result) == other,
    {
        proof {
            let d = choose|d: Direction| self.spec_neighbor(d) == other;
            assert(self.spec_neighbor(d) == other);
        }
        let dq = other.q - self.q;
        let dr = other.r - self.r;
        if dq == 1 && dr == 0 {
            Direction::East
        } else if dq == 1 && dr == -1 {
            Direction::NorthEast
        } else if dq == 0 && dr == -1 {
            Direction::NorthWest
        } else if dq == -1 && dr == 0 {
            Direction::West
        } else if dq == -1 && dr == 1 {
            Direction::SouthWest
        } else {
            proof {
                let d = choose|d: Direction| self.spec_neighbor(d) == other;
                assert(d == Direction::SouthEast);
            }
            Direction::SouthEast
        }
    }
}

/// One tile-to-entity record in the map index.
#[derive(Clone, Copy, Debug, PartialEq, Eq, Structural)]
pub struct TileEntity {
    /// The tile the record is about.
    pub tile_pos: TilePos,
    /// The game object standing on that tile.
    pub entity: Entity,
}

/// One tile-to-terrain record in the map index.
#[derive(Clone, Copy, Debug, PartialEq, Eq, Structural)]
pub struct TileTerrain {
    /// The tile the record is about.
    pub tile_pos: TilePos,
    /// The terrain variety of that tile.
    pub terrain_id: TerrainId,
}

/// The spatial index of the world: which tiles exist, which can be walked on,
/// and what stands where.
#[derive(Clone, Debug, PartialEq, Eq)]
pub struct MapGeometry {
    /// Every tile that belongs to the map.
    pub valid: Vec<TilePos>,
    /// The valid tiles that units cannot walk onto.
    pub impassable: Vec<TilePos>,
    /// The terrain variety of each tile that has one.
    pub terrain: Vec<TileTerrain>,
    /// The structure occupying each occupied tile.
    pub structures: Vec<TileEntity>,
    /// The ghost (queued structure) occupying each occupied tile.
    pub ghosts: Vec<TileEntity>,
}

/// Every record of `a` also occurs in `b`.
pub open spec fn spec_records_subset(a: Seq<TileEntity>, b: Seq<TileEntity>) -> bool {
    forall|i: int| 0 <= i < a.len() ==> b.contains(#[trigger] a[i])
}

/// Each tile occurs at most once among the records of `s`.
pub open spec fn spec_unique_tiles(s: Seq<TileEntity>) -> bool {
    forall|i: int, j: int| 0 <= i < j < s.len() ==> s[i].tile_pos != s[j].tile_pos
}

/// `s` has a record for tile `t`.
pub open spec fn spec_occupied(s: Seq<TileEntity>, t: TilePos) -> bool {
    exists|i: int| 0 <= i < s.len() && s[i].tile_pos == t
}

/// The entity that `s` records for tile `t`; meaningful only when unique.
pub open spec fn spec_occupant(s: Seq<TileEntity>, t: TilePos) -> Entity {
    s[choose|i: int| 0 <= i < s.len() && s[i].tile_pos == t].entity
}

impl MapGeometry {
    /// Tiles are in coordinate range and each index lists a tile at most once.
    pub open spec fn wf(&self) -> bool {
        &&& forall|i: int| 0 <= i < self.valid@.len() ==> tile_in_range(#[trigger] self.valid@[i])
        &&& forall|i: int, j: int|
            0 <= i < j < self.terrain@.len() ==> self.terrain@[i].tile_pos
                != self.terrain@[j].tile_pos
        &&& spec_unique_tiles(self.structures@)
        &&& spec_unique_tiles(self.ghosts@)
    }

    /// Tile `t` belongs to the map.
    pub open spec fn spec_is_valid(&self, t: TilePos) -> bool {
        exists|i: int| 0 <= i < self.valid@.len() && self.valid@[i] == t
    }

    /// Tile `t` can be walked onto.
    pub open spec fn spec_is_passable(&self, t: TilePos) -> bool {
        &&& self.spec_is_valid(t)
        &&& !exists|i: int| 0 <= i < self.impassable@.len() && self.impassable@[i] == t
    }

    /// The terrain recorded for tile `t`, if any.
    pub open spec fn spec_terrain_at(&self, t: TilePos) -> Option<TerrainId> {
        if exists|i: int| 0 <= i < self.terrain@.len() && self.terrain@[i].tile_pos == t {
            Some(
                self.terrain@[choose|i: int|
                    0 <= i < self.terrain@.len() && self.terrain@[i].tile_pos == t].terrain_id,
            )
        } else {
            None
        }
    }

    /// The structure recorded on tile `t`, if any.
    pub open spec fn spec_structure_at(&self, t: TilePos) -> Option<Entity> {
        if spec_occupied(self.structures@, t) {
            Some(spec_occupant(self.structures@, t))
        } else {
            None
        }
    }

    /// The ghost recorded on tile `t`, if any.
    pub open spec fn spec_ghost_at(&self, t: TilePos) -> Option<Entity> {
        if spec_occupied(self.ghosts@, t) {
            Some(spec_occupant(self.ghosts@, t))
        } else {
            None
        }
    }

    /// Whether this index satisfies its well-formedness conditions; checked
    /// at run time when a map is assembled from untrusted input.
    pub fn check_wf(&self) -> (result: bool)
        ensures
            result == self.wf(),
    {
        let n = self.valid.len();
        let mut i: usize = 0;
        while i < n
            invariant
                n == self.valid@.len(),
                i <= n,
                forall|k: int| 0 <= k < i ==> tile_in_range(#[trigger] self.valid@[k]),
            decreases n - i,
        {
            let t = self.valid[i];
            if !(-MAX_COORD <= t.q && t.q <= MAX_COORD && -MAX_COORD <= t.r && t.r <= MAX_COORD) {
                return false;
            }
            i += 1;
        }
        let m = self.terrain.len();
        let mut a: usize = 0;
        while a < m
            invariant
                m == self.terrain@.len(),
                a <= m,
                forall|k: int, l: int|
                    0 <= k < l < a ==> self.terrain@[k].tile_pos != self.terrain@[l].tile_pos,
            decreases m - a,
        {
            let mut b: usize = 0;
            while b < a
                invariant
                    b <= a < m,
                    m == self.terrain@.len(),
                    forall|k: int|
                        0 <= k < b ==> self.terrain@[k].tile_pos != self.terrain@[a as int].tile_pos,
                    forall|k: int, l: int|
                        0 <= k < l < a ==> self.terrain@[k].tile_pos != self.terrain@[l].tile_pos,
                decreases a - b,
            {
                if self.terrain[b].tile_pos == self.terrain[a].tile_pos {
                    return false;
                }
                b += 1;
            }
            a += 1;
        }
        if !check_unique_tiles(&self.structures) {
            return false;
        }
        if !check_unique_tiles(&self.ghosts) {
            return false;
        }
        true
    }

    /// An empty map.
    pub fn new() -> (result: MapGeometry)
        ensures
            result.wf(),
            result.valid@.len() == 0,
            result.impassable@.len() == 0,
            result.terrain@.len() == 0,
            result.structures@.len() == 0,
            result.ghosts@.len() == 0,
    {
        MapGeometry {
            valid: Vec::new(),
            impassable: Vec::new(),
            terrain: Vec::new(),
            structures: Vec::new(),
            ghosts: Vec::new(),
        }
    }

    /// Whether tile `t` belongs to the map.
    pub fn is_valid(&self, t: TilePos) -> (result: bool)
        ensures
            result == self.spec_is_valid(t),
    {
        let n = self.valid.len();
        let mut i: usize = 0;
        while i < n
            invariant
                n == self.valid@.len(),
                i <= n,
                forall|k: int| 0 <= k < i ==> self.valid@[k] != t,
            decreases n - i,
        {
            if self.valid[i] == t {
                return true;
            }
            i += 1;
        }
        false
    }

    /// Whether tile `t` can be walked onto.
    pub fn is_passable(&self, t: TilePos) -> (result: bool)
        ensures
            result == self.spec_is_passable(t),
    {
        if !self.is_valid(t) {
            return false;
        }
        let n = self.impassable.len();
        let mut i: usize = 0;
        while i < n
            invariant
                n == self.impassable@.len(),
                i <= n,
                forall|k: int| 0 <= k < i ==> self.impassable@[k] != t,
            decreases n - i,
        {
            if self.impassable[i] == t {
                return false;
            }
            i += 1;
        }
        true
    }

    /// The terrain variety of tile `t`, if one is recorded.
    pub fn get_terrain(&self, t: TilePos) -> (result: Option<TerrainId>)
        requires
            self.wf(),
        ensures
            result == self.spec_terrain_at(t),
    {
        let n = self.terrain.len();
        let mut i: usize = 0;
        while i < n
            invariant
                n == self.terrain@.len(),
                i <= n,
                self.wf(),
                forall|k: int| 0 <= k < i ==> self.terrain@[k].tile_pos != t,
            decreases n - i,
        {
            if self.terrain[i].tile_pos == t {
                return Some(self.terrain[i].terrain_id);
            }
            i += 1;
        }
        None
    }

    /// The structure standing on tile `t`, if any.
    pub fn get_structure(&self, t: TilePos) -> (result: Option<Entity>)
        requires
            self.wf(),
        ensures
            result == self.spec_structure_at(t),
    {
        let n = self.structures.len();
        let mut i: usize = 0;
        while i < n
            invariant
                n == self.structures@.len(),
                i <= n,
                self.wf(),
                forall|k: int| 0 <= k < i ==> self.structures@[k].tile_pos != t,
            decreases n - i,
        {
            if self.structures[i].tile_pos == t {
                return Some(self.structures[i].entity);
            }
            i += 1;
        }
        None
    }

    /// The ghost standing on tile `t`, if any.
    pub fn get_ghost(&self, t: TilePos) -> (result: Option<Entity>)
        requires
            self.wf(),
        ensures
            result == self.spec_ghost_at(t),
    {
        let n = self.ghosts.len();
        let mut i: usize = 0;
        while i < n
            invariant
                n == self.ghosts@.len(),
                i <= n,
                self.wf(),
                forall|k: int| 0 <= k < i ==> self.ghosts@[k].tile_pos != t,
            decreases n - i,
        {
            if self.ghosts[i].tile_pos == t {
                return Some(self.ghosts[i].entity);
            }
            i += 1;
        }
        None
    }

    /// Adds `t` to the set of valid tiles.
    pub fn add_valid(&mut self, t: TilePos)
        requires
            old(self).wf(),
            tile_in_range(t),
        ensures
            final(self).wf(),
            final(self).valid@ == old(self).valid@.push(t),
            final(self).impassable@ == old(self).impassable@,
            final(self).terrain@ == old(self).terrain@,
            final(self).structures@ == old(self).structures@,
            final(self).ghosts@ == old(self).ghosts@,
    {
        self.valid.push(t);
    }

    /// Marks `t` as impassable.
    pub fn add_impassable(&mut self, t: TilePos)
        requires
            old(self).wf(),
        ensures
            final(self).wf(),
            final(self).impassable@ == old(self).impassable@.push(t),
            final(self).valid@ == old(self).valid@,
            final(self).terrain@ == old(self).terrain@,
            final(self).structures@ == old(self).structures@,
            final(self).ghosts@ == old(self).ghosts@,
    {
        self.impassable.push(t);
    }

    /// Records the terrain variety of tile `t`.
    pub fn add_terrain(&mut self, t: TilePos, terrain_id: TerrainId)
        requires
            old(self).wf(),
            old(self).spec_terrain_at(t) is None,
        ensures
            final(self).wf(),
            final(self).terrain@ == old(self).terrain@.push(
                TileTerrain { tile_pos: t, terrain_id },
            ),
            final(self).valid@ == old(self).valid@,
            final(self).impassable@ == old(self).impassable@,
            final(self).structures@ == old(self).structures@,
            final(self).ghosts@ == old(self).ghosts@,
    {
        self.terrain.push(TileTerrain { tile_pos: t, terrain_id });
    }

    /// Records `entity` as the structure standing on every tile in `tiles`.
    pub fn add_structure(&mut self, tiles: &Vec<TilePos>, entity: Entity)
        requires
            old(self).wf(),
            forall|k: int|
                0 <= k < tiles@.len() ==> old(self).spec_structure_at(#[trigger] tiles@[k])
                    is None,
            forall|i: int, j: int| 0 <= i < j < tiles@.len() ==> tiles@[i] != tiles@[j],
        ensures
            final(self).wf(),
            final(self).structures@ == old(self).structures@ + tiles@.map_values(
                |t: TilePos| TileEntity { tile_pos: t, entity },
            ),
            final(self).valid@ == old(self).valid@,
            final(self).impassable@ == old(self).impassable@,
            final(self).terrain@ == old(self).terrain@,
            final(self).ghosts@ == old(self).ghosts@,
    {
        let ghost target = self.structures@ + tiles@.map_values(
            |t: TilePos| TileEntity { tile_pos: t, entity },
        );
        let n = tiles.len();
        let mut k: usize = 0;
        while k < n
            invariant
                n == tiles@.len(),
                k <= n,
                self.wf(),
                old(self).wf(),
                forall|i: int|
                    0 <= i < tiles@.len() ==> old(self).spec_structure_at(#[trigger] tiles@[i])
                        is None,
                forall|i: int, j: int| 0 <= i < j < tiles@.len() ==> tiles@[i] != tiles@[j],
                self.structures@ == old(self).structures@ + tiles@.take(k as int).map_values(
                    |t: TilePos| TileEntity { tile_pos: t, entity },
                ),
                self.valid@ == old(self).valid@,
                self.impassable@ == old(self).impassable@,
                self.terrain@ == old(self).terrain@,
                self.ghosts@ == old(self).ghosts@,
            decreases n - k,
        {
            proof {
                assert forall|i: int, j: int|
                    0 <= i < j < self.structures@.len() + 1 implies (self.structures@.push(
                    TileEntity { tile_pos: tiles@[k as int], entity },
                ))[i].tile_pos != (self.structures@.push(
                    TileEntity { tile_pos: tiles@[k as int], entity },
                ))[j].tile_pos by {
                    let olen = old(self).structures@.len();
                    if j == self.structures@.len() {
                        if i < olen {
                            assert(old(self).spec_structure_at(tiles@[k as int]) is None);
                            assert(!spec_occupied(old(self).structures@, tiles@[k as int]));
                        } else {
                            assert((self.structures@)[i] == TileEntity {
                                tile_pos: tiles@[i - olen],
                                entity,
                            });
                        }
                    }
                }
            }
            self.structures.push(TileEntity { tile_pos: tiles[k], entity });
            proof {
                assert(self.structures@ =~= old(self).structures@ + tiles@.take(
                    k as int + 1,
                ).map_values(|t: TilePos| TileEntity { tile_pos: t, entity }));
            }
            k += 1;
        }
        proof {
            assert(tiles@.take(n as int) =~= tiles@);
            assert(self.structures@ =~= target);
        }
    }

    /// Removes the structure standing on tile `t`, clearing every tile it
    /// occupies, and returns it; returns `None` when the tile is empty.
    pub fn remove_structure(&mut self, t: TilePos) -> (result: Option<Entity>)
        requires
            old(self).wf(),
        ensures
            final(self).wf(),
            result == old(self).spec_structure_at(t),
            result is None ==> *final(self) == *old(self),
            result matches Some(e) ==> final(self).structures@ == old(self).structures@.filter(
                |rec: TileEntity| rec.entity != e,
            ),
            final(self).valid@ == old(self).valid@,
            final(self).impassable@ == old(self).impassable@,
            final(self).terrain@ == old(self).terrain@,
            final(self).ghosts@ == old(self).ghosts@,
    {
        let maybe_entity = self.get_structure(t);
        match maybe_entity {
            None => None,
            Some(e) => {
                let mut kept: Vec<TileEntity> = Vec::new();
                let n = self.structures.len();
                let mut i: usize = 0;
                while i < n
                    invariant
                        n == self.structures@.len(),
                        i <= n,
                        self == old(self),
                        kept@ == self.structures@.take(i as int).filter(
                            |rec: TileEntity| rec.entity != e,
                        ),
                    decreases n - i,
                {
                    proof {
                        assert(self.structures@.take(i as int + 1) =~= self.structures@.take(
                            i as int,
                        ).push(self.structures@[i as int]));
                        reveal_with_fuel(Seq::filter, 2);
                        assert(self.structures@.take(i as int).push(
                            self.structures@[i as int],
                        ).drop_last() =~= self.structures@.take(i as int));
                    }
                    let rec = self.structures[i];
                    if rec.entity.value != e.value {
                        kept.push(rec);
                    }
                    i += 1;
                }
                proof {
                    assert(self.structures@.take(n as int) =~= self.structures@);
                    lemma_filter_keeps_uniqueness(self.structures@, e);
                }
                self.structures = kept;
                Some(e)
            },
        }
    }

    /// Records `entity` as the ghost standing on tile `t`.
    pub fn add_ghost(&mut self, t: TilePos, entity: Entity)
        requires
            old(self).wf(),
            old(self).spec_ghost_at(t) is None,
        ensures
            final(self).wf(),
            final(self).ghosts@ == old(self).ghosts@.push(TileEntity { tile_pos: t, entity }),
            final(self).valid@ == old(self).valid@,
            final(self).impassable@ == old(self).impassable@,
            final(self).terrain@ == old(self).terrain@,
            final(self).structures@ == old(self).structures@,
    {
        self.ghosts.push(TileEntity { tile_pos: t, entity });
    }

    /// Removes the ghost standing on tile `t` and returns it; returns `None`
    /// when the tile has no ghost.
    pub fn remove_ghost(&mut self, t: TilePos) -> (result: Option<Entity>)
        requires
            old(self).wf(),
        ensures
            final(self).wf(),
            result == old(self).spec_ghost_at(t),
            result is None ==> *final(self) == *old(self),
            result matches Some(e) ==> final(self).ghosts@ == old(self).ghosts@.filter(
                |rec: TileEntity| rec.entity != e,
            ),
            final(self).valid@ == old(self).valid@,
            final(self).impassable@ == old(self).impassable@,
            final(self).terrain@ == old(self).terrain@,
            final(self).structures@ == old(self).structures@,
    {
        let maybe_entity = self.get_ghost(t);
        match maybe_entity {
            None => None,
            Some(e) => {
                let mut kept: Vec<TileEntity> = Vec::new();
                let n = self.ghosts.len();
                let mut i: usize = 0;
                while i < n
                    invariant
                        n == self.ghosts@.len(),
                        i <= n,
                        self == old(self),
                        kept@ == self.ghosts@.take(i as int).filter(
                            |rec: TileEntity| rec.entity != e,
                        ),
                    decreases n - i,
                {
                    proof {
                        assert(self.ghosts@.take(i as int + 1) =~= self.ghosts@.take(
                            i as int,
                        ).push(self.ghosts@[i as int]));
                        reveal_with_fuel(Seq::filter, 2);
                        assert(self.ghosts@.take(i as int).push(
                            self.ghosts@[i as int],
                        ).drop_last() =~= self.ghosts@.take(i as int));
                    }
                    let rec = self.ghosts[i];
                    if rec.entity.value != e.value {
                        kept.push(rec);
                    }
                    i += 1;
                }
                proof {
                    assert(self.ghosts@.take(n as int) =~= self.ghosts@);
                    lemma_filter_keeps_uniqueness(self.ghosts@, e);
                }
                self.ghosts = kept;
                Some(e)
            },
        }
    }
}

/// Whether each tile occurs at most once among the records of `s`.
fn check_unique_tiles(s: &Vec<TileEntity>) -> (result: bool)
    ensures
        result == spec_unique_tiles(s@),
{
    let n = s.len();
    let mut a: usize = 0;
    while a < n
        invariant
            n == s@.len(),
            a <= n,
            forall|k: int, l: int| 0 <= k < l < a ==> s@[k].tile_pos != s@[l].tile_pos,
        decreases n - a,
    {
        let mut b: usize = 0;
        while b < a
            invariant
                b <= a < n,
                n == s@.len(),
                forall|k: int| 0 <= k < b ==> s@[k].tile_pos != s@[a as int].tile_pos,
                forall|k: int, l: int| 0 <= k < l < a ==> s@[k].tile_pos != s@[l].tile_pos,
            decreases a - b,
        {
            if s[b].tile_pos == s[a].tile_pos {
                return false;
            }
            b += 1;
        }
        a += 1;
    }
    true
}

/// After filtering out the entity that occupied a tile, that tile has no
/// record left.
pub proof fn lemma_filtered_tile_cleared(s: Seq<TileEntity>, t: TilePos, e: Entity)
    requires
        spec_unique_tiles(s),
        spec_occupied(s, t),
        spec_occupant(s, t) == e,
    ensures
        !spec_occupied(s.filter(|rec: TileEntity| rec.entity != e), t),
{
    broadcast use vstd::seq_lib::group_filter_ensures;

    lemma_filter_keeps_uniqueness(s, e);
    let f = |rec: TileEntity| rec.entity != e;
    let fs = s.filter(f);
    let j = choose|i: int| 0 <= i < s.len() && s[i].tile_pos == t;
    if spec_occupied(fs, t) {
        let m = choose|i: int| 0 <= i < fs.len() && fs[i].tile_pos == t;
        assert(s.contains(fs[m]));
        let k = choose|k: int| 0 <= k < s.len() && s[k] == fs[m];
        assert(s[k].tile_pos == t);
        assert(k == j);
        assert(f(fs[m]));
    }
}

/// Filtering records by entity keeps the per-tile uniqueness of an index.
pub proof fn lemma_filter_keeps_uniqueness(s: Seq<TileEntity>, e: Entity)
    requires
        spec_unique_tiles(s),
    ensures
        spec_unique_tiles(s.filter(|rec: TileEntity| rec.entity != e)),
        spec_records_subset(s.filter(|rec: TileEntity| rec.entity != e), s),
    decreases s.len(),
{
    let f = |rec: TileEntity| rec.entity != e;
    reveal_with_fuel(Seq::filter, 2);
    if s.len() > 0 {
        lemma_filter_keeps_uniqueness(s.drop_last(), e);
        let fs = s.filter(f);
        let fd = s.drop_last().filter(f);
        assert forall|i: int| 0 <= i < fd.len() implies s.contains(fd[i]) by {
            assert(s.drop_last().contains(fd[i]));
            let k = choose|k: int| 0 <= k < s.drop_last().len() && s.drop_last()[k] == fd[i];
            assert(s[k] == fd[i]);
        }
        if f(s.last()) {
            assert(fs =~= fd.push(s.last()));
            assert forall|i: int, j: int| 0 <= i < j < fs.len() implies fs[i].tile_pos
                != fs[j].tile_pos by {
                if j == fs.len() - 1 {
                    assert(s.drop_last().contains(fd[i]));
                    let k = choose|k: int|
                        0 <= k < s.drop_last().len() && s.drop_last()[k] == fd[i];
                    assert(s[k] == fd[i]);
                    assert(s[s.len() - 1] == s.last());
                }
            }
            assert forall|i: int| 0 <= i < fs.len() implies s.contains(fs[i]) by {
                if i == fs.len() - 1 {
                    assert(s[s.len() - 1] == s.last());
                }
            }
        } else {
            assert(fs =~= fd);
        }
    }
}

} // verus!

