//! Plain identifiers for the varieties of game object the engine reasons about.
//!
//! Each identifier wraps a stable number chosen by whoever loads the game's
//! manifests; the engine only ever compares identifiers for equality.

use vstd::prelude::*;

verus! {

/// Identifies an item variety.
#[derive(Clone, Copy, Debug, PartialEq, Eq, Structural)]
pub struct ItemId {
    /// The stable number of this item variety.
    pub value: u64,
}

/// Identifies a structure variety.
#[derive(Clone, Copy, Debug, PartialEq, Eq, Structural)]
pub struct StructureId {
    /// The stable number of this structure variety.
    pub value: u64,
}

/// Identifies a terrain variety.
#[derive(Clone, Copy, Debug, PartialEq, Eq, Structural)]
pub struct TerrainId {
    /// The stable number of this terrain variety.
    pub value: u64,
}

/// Identifies a crafting recipe.
#[derive(Clone, Copy, Debug, PartialEq, Eq, Structural)]
pub struct RecipeId {
    /// The stable number of this recipe.
    pub value: u64,
}

/// Identifies a unit variety.
#[derive(Clone, Copy, Debug, PartialEq, Eq, Structural)]
pub struct UnitTypeId {
    /// The stable number of this unit variety.
    pub value: u64,
}

/// A handle to one spawned game object (a structure or a ghost).
#[derive(Clone, Copy, Debug, PartialEq, Eq, Structural)]
pub struct Entity {
    /// The stable number of this game object.
    pub value: u64,
}

} // verus!
