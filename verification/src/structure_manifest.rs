//! Read-only definitions for each variety of structure.

use vstd::prelude::*;

use crate::construction::Footprint;
use crate::ids::{ItemId, RecipeId, StructureId, TerrainId, UnitTypeId};
use crate::inventory::InputInventory;

verus! {

/// The marker tag for the structure namespace: values of [`StructureId`]
/// identify entries of the structure manifest.
#[derive(Clone, Copy, Debug, PartialEq, Eq, Structural)]
pub struct Structure;

/// Either kind of organism a living structure can be a form of.
#[derive(Clone, Copy, Debug, PartialEq, Eq, Structural)]
pub enum OrganismId {
    /// A structure variety.
    Structure(StructureId),
    /// A unit variety.
    Unit(UnitTypeId),
}

/// What the engine reads about a living structure: which organism the
/// variety is the prototypical form of.
#[derive(Clone, Copy, Debug, PartialEq, Eq, Structural)]
pub struct OrganismVariety {
    /// The canonical form of this organism.
    pub prototypical_form: OrganismId,
}

/// The recipe a crafting structure starts with, if any.
#[derive(Clone, Copy, Debug, PartialEq, Eq, Structural)]
pub struct ActiveRecipe {
    /// The selected recipe.
    pub recipe_id: Option<RecipeId>,
}

impl ActiveRecipe {
    /// An active recipe for `recipe_id`.
    pub fn new(recipe_id: RecipeId) -> (result: ActiveRecipe)
        ensures
            result.recipe_id == Some(recipe_id),
    {
        ActiveRecipe { recipe_id: Some(recipe_id) }
    }

    /// No recipe selected.
    pub fn none() -> (result: ActiveRecipe)
        ensures
            result.recipe_id is None,
    {
        ActiveRecipe { recipe_id: None }
    }
}

/// What set of components a structure of a given variety gets.
#[derive(Clone, Copy, Debug, PartialEq, Eq, Structural)]
pub enum StructureKind {
    /// Stores items.
    Storage {
        /// The number of slots in the inventory, controlling how large it is.
        max_slot_count: usize,
        /// Is any item allowed here, or just one?
        reserved_for: Option<ItemId>,
    },
    /// Crafts items, turning inputs into outputs.
    Crafting {
        /// Does this structure start with a recipe pre-selected?
        starting_recipe: ActiveRecipe,
    },
}

/// How new structures of a variety can be built.
#[derive(Clone, Debug, PartialEq, Eq)]
pub struct ConstructionStrategy {
    /// The "seedling" form built in place of this structure, if any.
    pub seedling: Option<StructureId>,
    /// The amount of work, in milliseconds, units must put in to finish the
    /// construction.
    pub work_ms: u64,
    /// The items consumed to create a new copy of this structure.
    pub materials: InputInventory,
    /// The terrain varieties this structure can be built on.
    pub allowed_terrain_types: Vec<TerrainId>,
}

/// Information about a single variety of structure.
#[derive(Clone, Debug, PartialEq, Eq)]
pub struct StructureData {
    /// Data needed for living structures.
    pub organism_variety: Option<OrganismVariety>,
    /// What base variety of structure this is, determining its components.
    pub kind: StructureKind,
    /// How new copies of this structure can be built.
    pub construction_strategy: ConstructionStrategy,
    /// The maximum number of workers that can work here at once.
    pub max_workers: u8,
    /// The tiles taken up by this building.
    pub footprint: Footprint,
}

impl StructureData {
    /// Component parameters are within the bounds the engine's arithmetic
    /// relies on.
    pub open spec fn wf(&self) -> bool {
        &&& self.footprint.wf()
        &&& self.construction_strategy.materials.inventory.wf()
        &&& match self.kind {
            StructureKind::Storage { max_slot_count, .. } => max_slot_count <= 0xFFFF,
            StructureKind::Crafting { .. } => true,
        }
    }

    /// Returns the starting recipe of the structure; a structure that does
    /// not craft has none.
    pub fn starting_recipe(&self) -> (result: ActiveRecipe)
        ensures
            result == (match self.kind {
                StructureKind::Crafting { starting_recipe } => starting_recipe,
                StructureKind::Storage { .. } => ActiveRecipe { recipe_id: None },
            }),
    {
        match self.kind {
            StructureKind::Crafting { starting_recipe } => starting_recipe,
            StructureKind::Storage { .. } => ActiveRecipe::none(),
        }
    }

    /// Returns the terrain varieties this structure can be built on.
    pub fn allowed_terrain_types(&self) -> (result: &Vec<TerrainId>)
        ensures
            result == &self.construction_strategy.allowed_terrain_types,
    {
        &self.construction_strategy.allowed_terrain_types
    }

    /// A structure variety is prototypical when it is not an organism or is
    /// the canonical form of its organism.
    pub open spec fn spec_prototypical(&self, id: StructureId) -> bool {
        match self.organism_variety {
            None => true,
            Some(variety) => variety.prototypical_form == OrganismId::Structure(id),
        }
    }
}

/// One manifest entry: a structure identifier, its display name and data.
#[derive(Clone, Debug, PartialEq, Eq)]
pub struct StructureManifestEntry {
    /// The identifier the entry describes.
    pub id: StructureId,
    /// The display name of the structure variety.
    pub name: String,
    /// The data recorded for that identifier.
    pub data: StructureData,
}

/// Stores the read-only definitions for all structures.
#[derive(Clone, Debug, PartialEq, Eq)]
pub struct StructureManifest {
    /// One entry per structure variety.
    pub entries: Vec<StructureManifestEntry>,
}

impl StructureManifest {
    /// Each identifier appears at most once and every entry's data is within
    /// bounds.
    pub open spec fn wf(&self) -> bool {
        &&& forall|i: int, j: int|
            0 <= i < j < self.entries@.len() ==> self.entries@[i].id != self.entries@[j].id
        &&& forall|i: int| 0 <= i < self.entries@.len() ==> (#[trigger] self.entries@[i]).data.wf()
    }

    /// The manifest has an entry for `id`.
    pub open spec fn spec_has(&self, id: StructureId) -> bool {
        exists|i: int| 0 <= i < self.entries@.len() && self.entries@[i].id == id
    }

    /// The index of the entry for `id`; meaningful only when one exists.
    pub open spec fn spec_index_of(&self, id: StructureId) -> int {
        choose|i: int| 0 <= i < self.entries@.len() && self.entries@[i].id == id
    }

    /// The data recorded for `id`; meaningful only when an entry exists.
    pub open spec fn spec_get(&self, id: StructureId) -> StructureData {
        self.entries@[self.spec_index_of(id)].data
    }

    /// An empty manifest.
    pub fn new() -> (result: StructureManifest)
        ensures
            result.wf(),
            result.entries@.len() == 0,
    {
        StructureManifest { entries: Vec::new() }
    }

    /// Records `data` under `id` and `name`; succeeds exactly when the
    /// identifier is not yet present and the data is within bounds.
    pub fn insert(&mut self, id: StructureId, name: String, data: StructureData) -> (result: bool)
        requires
            old(self).wf(),
        ensures
            final(self).wf(),
            result <==> (data.wf() && !old(self).spec_has(id)),
            result ==> final(self).entries@.len() == old(self).entries@.len() + 1
                && final(self).entries@.last().id == id && final(self).entries@.last().data == data
                && forall|k: int|
                0 <= k < old(self).entries@.len() ==> final(self).entries@[k] == old(
                    self,
                ).entries@[k],
            !result ==> *final(self) == *old(self),
    {
        let data_ok = match data.kind {
            StructureKind::Storage { max_slot_count, .. } => max_slot_count <= 0xFFFF,
            StructureKind::Crafting { .. } => true,
        };
        if !data_ok {
            return false;
        }
        let mut footprint_ok = true;
        let fp_len = data.footprint.offsets.len();
        let mut a: usize = 0;
        while a < fp_len
            invariant
                fp_len == data.footprint.offsets@.len(),
                a <= fp_len,
                footprint_ok ==> forall|i: int, j: int|
                    0 <= i < j < a ==> data.footprint.offsets@[i] != data.footprint.offsets@[j],
                footprint_ok ==> forall|i: int|
                    0 <= i < a ==> crate::construction::offset_in_range(
                        #[trigger] data.footprint.offsets@[i],
                    ),
                !footprint_ok ==> !data.footprint.wf(),
            decreases fp_len - a,
        {
            let t = data.footprint.offsets[a];
            if !(-crate::geometry::MAX_COORD <= t.q && t.q <= crate::geometry::MAX_COORD
                && -crate::geometry::MAX_COORD <= t.r && t.r <= crate::geometry::MAX_COORD
                && -crate::geometry::MAX_COORD <= t.q + t.r && t.q + t.r
                <= crate::geometry::MAX_COORD) {
                proof {
                    assert(!crate::construction::offset_in_range(
                        data.footprint.offsets@[a as int],
                    ));
                }
                footprint_ok = false;
            }
            let mut b: usize = 0;
            while b < a
                invariant
                    b <= a < fp_len,
                    fp_len == data.footprint.offsets@.len(),
                    t == data.footprint.offsets@[a as int],
                    footprint_ok ==> crate::construction::offset_in_range(
                        data.footprint.offsets@[a as int],
                    ),
                    footprint_ok ==> forall|i: int|
                        0 <= i < b ==> data.footprint.offsets@[i] != data.footprint.offsets@[
                            a as int
                        ],
                    footprint_ok ==> forall|i: int, j: int|
                        0 <= i < j < a ==> data.footprint.offsets@[i] != data.footprint.offsets@[j],
                    footprint_ok ==> forall|i: int|
                        0 <= i < a ==> crate::construction::offset_in_range(
                            #[trigger] data.footprint.offsets@[i],
                        ),
                    !footprint_ok ==> !data.footprint.wf(),
                decreases a - b,
            {
                if data.footprint.offsets[b] == t {
                    proof {
                        assert(data.footprint.offsets@[b as int] == data.footprint.offsets@[
                            a as int
                        ]);
                    }
                    footprint_ok = false;
                }
                b += 1;
            }
            a += 1;
        }
        if !footprint_ok {
            return false;
        }
        let materials_ok = data.construction_strategy.materials.inventory.check_wf();
        if !materials_ok {
            return false;
        }
        let n = self.entries.len();
        let mut i: usize = 0;
        while i < n
            invariant
                n == self.entries@.len(),
                i <= n,
                forall|k: int| 0 <= k < i ==> self.entries@[k].id != id,
                self.wf(),
                *self == *old(self),
            decreases n - i,
        {
            if self.entries[i].id == id {
                return false;
            }
            i += 1;
        }
        proof {
            assert(data.footprint.wf());
            assert(data.wf());
        }
        self.entries.push(StructureManifestEntry { id, name, data });
        true
    }

    /// The data recorded for `id`.
    pub fn get(&self, id: StructureId) -> (result: &StructureData)
        requires
            self.wf(),
            self.spec_has(id),
        ensures
            *result == self.spec_get(id),
            result.wf(),
    {
        let n = self.entries.len();
        let mut i: usize = 0;
        while i < n
            invariant
                n == self.entries@.len(),
                i <= n,
                self.wf(),
                self.spec_has(id),
                forall|k: int| 0 <= k < i ==> self.entries@[k].id != id,
            decreases n - i,
        {
            if self.entries[i].id == id {
                proof {
                    let j = self.spec_index_of(id);
                    assert(0 <= j < self.entries@.len() && self.entries@[j].id == id);
                    assert(j == i as int);
                }
                return &self.entries[i].data;
            }
            i += 1;
        }
        proof {
            let j = self.spec_index_of(id);
            assert(0 <= j < self.entries@.len() && self.entries@[j].id == id);
            assert(false);
        }
        unreached()
    }

    /// Returns the identifiers of all prototypical structure varieties, in
    /// manifest order.  These populate menus and other player-facing tools.
    pub fn prototypes(&self) -> (result: Vec<StructureId>)
        requires
            self.wf(),
        ensures
            result@ == self.entries@.filter(
                |e: StructureManifestEntry| e.data.spec_prototypical(e.id),
            ).map_values(|e: StructureManifestEntry| e.id),
    {
        let n = self.entries.len();
        let mut result: Vec<StructureId> = Vec::new();
        let mut i: usize = 0;
        while i < n
            invariant
                n == self.entries@.len(),
                i <= n,
                self.wf(),
                result@ == self.entries@.take(i as int).filter(
                    |e: StructureManifestEntry| e.data.spec_prototypical(e.id),
                ).map_values(|e: StructureManifestEntry| e.id),
            decreases n - i,
        {
            proof {
                assert(self.entries@.take(i as int + 1) =~= self.entries@.take(i as int).push(
                    self.entries@[i as int],
                ));
                reveal_with_fuel(Seq::filter, 2);
                assert(self.entries@.take(i as int).push(
                    self.entries@[i as int],
                ).drop_last() =~= self.entries@.take(i as int));
            }
            let prototypical = match &self.entries[i].data.organism_variety {
                None => true,
                Some(variety) => {
                    match variety.prototypical_form {
                        OrganismId::Structure(s) => s.value == self.entries[i].id.value,
                        OrganismId::Unit(_) => false,
                    }
                },
            };
            if prototypical {
                result.push(self.entries[i].id);
            }
            proof {
                let f = |e: StructureManifestEntry| e.data.spec_prototypical(e.id);
                if f(self.entries@[i as int]) {
                    assert(result@ =~= self.entries@.take(i as int + 1).filter(f).map_values(
                        |e: StructureManifestEntry| e.id,
                    ));
                } else {
                    assert(result@ =~= self.entries@.take(i as int + 1).filter(f).map_values(
                        |e: StructureManifestEntry| e.id,
                    ));
                }
            }
            i += 1;
        }
        proof {
            assert(self.entries@.take(n as int) =~= self.entries@);
        }
        result
    }

    /// Returns the names of all prototypical structure varieties, in
    /// manifest order.
    pub fn prototype_names(&self) -> (result: Vec<String>)
        requires
            self.wf(),
        ensures
            result@.map_values(|s: String| s@) == self.entries@.filter(
                |e: StructureManifestEntry| e.data.spec_prototypical(e.id),
            ).map_values(|e: StructureManifestEntry| e.name@),
    {
        let n = self.entries.len();
        let mut result: Vec<String> = Vec::new();
        let mut i: usize = 0;
        while i < n
            invariant
                n == self.entries@.len(),
                i <= n,
                self.wf(),
                result@.map_values(|s: String| s@) == self.entries@.take(i as int).filter(
                    |e: StructureManifestEntry| e.data.spec_prototypical(e.id),
                ).map_values(|e: StructureManifestEntry| e.name@),
            decreases n - i,
        {
            proof {
                assert(self.entries@.take(i as int + 1) =~= self.entries@.take(i as int).push(
                    self.entries@[i as int],
                ));
                reveal_with_fuel(Seq::filter, 2);
                assert(self.entries@.take(i as int).push(
                    self.entries@[i as int],
                ).drop_last() =~= self.entries@.take(i as int));
            }
            let prototypical = match &self.entries[i].data.organism_variety {
                None => true,
                Some(variety) => {
                    match variety.prototypical_form {
                        OrganismId::Structure(s) => s.value == self.entries[i].id.value,
                        OrganismId::Unit(_) => false,
                    }
                },
            };
            let ghost prev = result@;
            if prototypical {
                result.push(self.entries[i].name.clone());
            }
            proof {
                reveal_with_fuel(Seq::filter, 2);
                let f = |e: StructureManifestEntry| e.data.spec_prototypical(e.id);
                let v = |s: String| s@;
                let g = |e: StructureManifestEntry| e.name@;
                let e_i = self.entries@[i as int];
                let taken = self.entries@.take(i as int);
                assert(self.entries@.take(i as int + 1) == taken.push(e_i));
                if f(e_i) {
                    assert(taken.push(e_i).filter(f) == taken.filter(f).push(e_i));
                    assert(result@ == prev.push(result@.last()));
                    assert(result@.last()@ == e_i.name@);
                    let lhs = result@.map_values(v);
                    let rhs = taken.filter(f).push(e_i).map_values(g);
                    assert(prev.map_values(v) == taken.filter(f).map_values(g));
                    assert(prev.len() == prev.map_values(v).len());
                    assert(taken.filter(f).map_values(g).len() == taken.filter(f).len());
                    assert(lhs.len() == rhs.len());
                    assert forall|j: int| 0 <= j < lhs.len() implies lhs[j] == rhs[j] by {
                        if j < prev.len() {
                            assert(lhs[j] == v(result@[j]));
                            assert(result@[j] == prev[j]);
                            assert(prev.map_values(v)[j] == taken.filter(f).map_values(g)[j]);
                            assert(rhs[j] == g(taken.filter(f)[j]));
                        } else {
                            assert(lhs[j] == v(result@[j]));
                            assert(rhs[j] == g(e_i));
                        }
                    }
                    assert(lhs =~= rhs);
                    assert(result@.map_values(v) == self.entries@.take(i as int + 1).filter(
                        f,
                    ).map_values(g));
                } else {
                    assert(taken.push(e_i).filter(f) == taken.filter(f));
                    assert(result@.map_values(v) == self.entries@.take(i as int + 1).filter(
                        f,
                    ).map_values(g));
                }
            }
            i += 1;
        }
        proof {
            assert(self.entries@.take(n as int) =~= self.entries@);
        }
        result
    }
}

} // verus!
