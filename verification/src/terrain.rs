//! Terrain varieties and the read-only terrain manifest.
//!
//! The engine reads exactly one thing about terrain: how fast units walk on
//! it, expressed in percent of the standard walking speed.

use vstd::prelude::*;

use crate::ids::TerrainId;

verus! {

/// The standard walking speed, in percent.
pub const STANDARD_WALKING_SPEED: u64 = 100;

/// Everything the engine reads about one terrain variety.
#[derive(Clone, Copy, Debug, PartialEq, Eq, Structural)]
pub struct TerrainData {
    /// Walking speed on this terrain, in percent of the standard speed.
    pub walking_speed_percent: u64,
}

/// One manifest entry: a terrain identifier together with its data.
#[derive(Clone, Copy, Debug, PartialEq, Eq, Structural)]
pub struct TerrainEntry {
    /// The identifier the entry describes.
    pub id: TerrainId,
    /// The data recorded for that identifier.
    pub data: TerrainData,
}

/// The read-only lookup table of all terrain varieties.
#[derive(Clone, Debug, PartialEq, Eq)]
pub struct TerrainManifest {
    /// One entry per terrain variety.
    pub entries: Vec<TerrainEntry>,
}

impl TerrainManifest {
    /// Each identifier appears at most once and every speed is positive and
    /// small enough that duration arithmetic cannot overflow.
    pub open spec fn wf(&self) -> bool {
        &&& forall|i: int, j: int|
            0 <= i < j < self.entries@.len() ==> self.entries@[i].id != self.entries@[j].id
        &&& forall|i: int|
            0 <= i < self.entries@.len() ==> 1 <= #[trigger] self.entries@[
                i
            ].data.walking_speed_percent <= 10000
    }

    /// The walking speed recorded for `terrain_id`, or the standard speed for
    /// an unknown terrain.
    pub open spec fn spec_walking_speed(&self, terrain_id: TerrainId) -> u64 {
        if exists|i: int| 0 <= i < self.entries@.len() && self.entries@[i].id == terrain_id {
            self.entries@[choose|i: int|
                0 <= i < self.entries@.len() && self.entries@[i].id
                    == terrain_id].data.walking_speed_percent
        } else {
            STANDARD_WALKING_SPEED
        }
    }

    /// An empty manifest.
    pub fn new() -> (result: TerrainManifest)
        ensures
            result.entries@.len() == 0,
            result.wf(),
    {
        TerrainManifest { entries: Vec::new() }
    }

    /// Records `data` for `terrain_id`; succeeds exactly when the
    /// identifier is not yet present and the speed is in range.
    pub fn insert(&mut self, id: TerrainId, data: TerrainData) -> (result: bool)
        requires
            old(self).wf(),
        ensures
            final(self).wf(),
            result <==> (1 <= data.walking_speed_percent <= 10000 && !exists|i: int|
                0 <= i < old(self).entries@.len() && old(self).entries@[i].id == id),
            result ==> final(self).entries@ == old(self).entries@.push(TerrainEntry { id, data }),
            !result ==> *final(self) == *old(self),
    {
        if data.walking_speed_percent < 1 || data.walking_speed_percent > 10000 {
            return false;
        }
        let n = self.entries.len();
        let mut i: usize = 0;
        while i < n
            invariant
                n == self.entries@.len(),
                i <= n,
                forall|k: int| 0 <= k < i ==> self.entries@[k].id != id,
                self.wf(),
                *self == *old(self),
            decreases n - i,
        {
            if self.entries[i].id == id {
                return false;
            }
            i += 1;
        }
        self.entries.push(TerrainEntry { id, data });
        true
    }

    /// The walking speed for `terrain_id` in percent, or the standard speed
    /// for an unknown terrain.
    pub fn walking_speed_percent(&self, terrain_id: TerrainId) -> (result: u64)
        requires
            self.wf(),
        ensures
            result == self.spec_walking_speed(terrain_id),
            1 <= result <= 10000,
    {
        let n = self.entries.len();
        let mut i: usize = 0;
        while i < n
            invariant
                n == self.entries@.len(),
                i <= n,
                self.wf(),
                forall|k: int| 0 <= k < i ==> self.entries@[k].id != terrain_id,
            decreases n - i,
        {
            if self.entries[i].id == terrain_id {
                return self.entries[i].data.walking_speed_percent;
            }
            i += 1;
        }
        STANDARD_WALKING_SPEED
    }
}

} // verus!
