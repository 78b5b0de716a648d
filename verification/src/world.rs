//! The snapshot of shared world state the engine acts on: the spatial index
//! together with every spawned structure and ghost and their components.

use vstd::prelude::*;

use crate::crafting::{CraftingState, WorkersPresent};
use crate::geometry::{MapGeometry, TilePos};
use crate::ids::{Entity, StructureId};
use crate::inventory::{InputInventory, OutputInventory, StorageInventory};

verus! {

/// One spawned game object (a structure or a ghost) with the components the
/// engine reads and writes.
#[derive(Clone, Debug, PartialEq, Eq)]
pub struct WorldEntity {
    /// The handle other records refer to this object by.
    pub entity: Entity,
    /// The anchor tile the object stands on.
    pub tile_pos: TilePos,
    /// The variety of structure this object is (or will become, for ghosts).
    pub structure_id: StructureId,
    /// Whether this object is a ghost queued for construction.
    pub is_ghost: bool,
    /// The inventory receiving ingredients, if the object has one.
    pub input: Option<InputInventory>,
    /// The inventory offering finished goods, if the object has one.
    pub output: Option<OutputInventory>,
    /// The general storage inventory, if the object has one.
    pub storage: Option<StorageInventory>,
    /// Where the object's crafting process stands, if it crafts.
    pub crafting_state: Option<CraftingState>,
    /// The seats for workers, if the object admits workers.
    pub workers_present: Option<WorkersPresent>,
    /// Whether the object waits to be torn down.
    pub marked_for_demolition: bool,
}

impl WorldEntity {
    /// Component values are within their invariants.
    pub open spec fn wf(&self) -> bool {
        &&& match self.input {
            Some(ref inv) => inv.inventory.wf(),
            None => true,
        }
        &&& match self.output {
            Some(ref inv) => inv.inventory.wf(),
            None => true,
        }
        &&& match self.storage {
            Some(ref inv) => inv.inventory.wf(),
            None => true,
        }
        &&& match self.workers_present {
            Some(ref w) => w.wf(),
            None => true,
        }
    }
}

/// `s` has a record for `entity`.
pub open spec fn spec_has_entity(s: Seq<WorldEntity>, entity: Entity) -> bool {
    exists|i: int| 0 <= i < s.len() && s[i].entity == entity
}

/// The index of the record for `entity`; meaningful only when one exists.
pub open spec fn spec_entity_index(s: Seq<WorldEntity>, entity: Entity) -> int {
    choose|i: int| 0 <= i < s.len() && s[i].entity == entity
}

/// Each entity has at most one record in `s`.
pub open spec fn spec_unique_entities(s: Seq<WorldEntity>) -> bool {
    forall|i: int, j: int| 0 <= i < j < s.len() ==> s[i].entity != s[j].entity
}

/// When entities are unique, any index holding `entity` is the entity index.
pub proof fn lemma_entity_index_unique(s: Seq<WorldEntity>, entity: Entity, i: int)
    requires
        spec_unique_entities(s),
        0 <= i < s.len(),
        s[i].entity == entity,
    ensures
        spec_has_entity(s, entity),
        spec_entity_index(s, entity) == i,
{
    assert(spec_has_entity(s, entity));
    let j = spec_entity_index(s, entity);
    assert(0 <= j < s.len() && s[j].entity == entity);
}

/// Removing one record keeps all others, in order, and keeps entities
/// unique.
pub proof fn lemma_remove_keeps_records(s: Seq<WorldEntity>, i: int)
    requires
        0 <= i < s.len(),
        spec_unique_entities(s),
    ensures
        s.remove(i).len() == s.len() - 1,
        forall|k: int|
            0 <= k < s.remove(i).len() ==> s.remove(i)[k] == (if k < i {
                s[k]
            } else {
                s[k + 1]
            }),
        spec_unique_entities(s.remove(i)),
{
    let r = s.remove(i);
    assert forall|k: int|
        0 <= k < r.len() implies r[k] == (if k < i {
        s[k]
    } else {
        s[k + 1]
    }) by {
        assert(r == s.subrange(0, i) + s.subrange(i + 1, s.len() as int));
    }
    assert forall|k: int, l: int| 0 <= k < l < r.len() implies r[k].entity != r[l].entity by {
        let k0 = if k < i {
            k
        } else {
            k + 1
        };
        let l0 = if l < i {
            l
        } else {
            l + 1
        };
        assert(r[k] == s[k0] && r[l] == s[l0]);
    }
}

/// Removing the record of one entity leaves every other entity's record
/// lookup unchanged.
pub proof fn lemma_remove_keeps_other_entities(s: Seq<WorldEntity>, i: int, other: Entity)
    requires
        0 <= i < s.len(),
        spec_unique_entities(s),
        s[i].entity != other,
    ensures
        spec_has_entity(s.remove(i), other) <==> spec_has_entity(s, other),
        spec_has_entity(s, other) ==> s.remove(i)[spec_entity_index(s.remove(i), other)]
            == s[spec_entity_index(s, other)],
{
    lemma_remove_keeps_records(s, i);
    let r = s.remove(i);
    if spec_has_entity(s, other) {
        let j = spec_entity_index(s, other);
        assert(0 <= j < s.len() && s[j].entity == other);
        assert(j != i);
        let j2 = if j < i {
            j
        } else {
            j - 1
        };
        assert(r[j2] == s[j]);
        lemma_entity_index_unique(r, other, j2);
    } else {
        if spec_has_entity(r, other) {
            let j2 = spec_entity_index(r, other);
            assert(r[j2] == (if j2 < i {
                s[j2]
            } else {
                s[j2 + 1]
            }));
        }
    }
}

/// The seat invariant: in a well-formed world, every workplace's seated
/// workers never outnumber its seats (and never fall below zero, by type).
pub proof fn lemma_seats_within_capacity(w: World)
    requires
        w.wf(),
    ensures
        forall|i: int|
            0 <= i < w.entities@.len() ==> (match (#[trigger] w.entities@[i]).workers_present {
                Some(wp) => 0 <= wp.current <= wp.max,
                None => true,
            }),
{
    assert forall|i: int|
        0 <= i < w.entities@.len() implies (match (#[trigger] w.entities@[i]).workers_present {
        Some(wp) => 0 <= wp.current <= wp.max,
        None => true,
    }) by {
        assert(w.entities@[i].wf());
    }
}

/// The shared world state: the spatial index plus all spawned objects.
#[derive(Clone, Debug, PartialEq, Eq)]
pub struct World {
    /// The spatial index.
    pub map: MapGeometry,
    /// Every spawned structure and ghost.
    pub entities: Vec<WorldEntity>,
    /// The number the next spawned object will receive.
    pub next_entity: u64,
}

impl World {
    /// The map and all records are well-formed, entities are unique, and no
    /// spawned entity has reached the next free number.
    pub open spec fn wf(&self) -> bool {
        &&& self.map.wf()
        &&& spec_unique_entities(self.entities@)
        &&& forall|i: int| 0 <= i < self.entities@.len() ==> (#[trigger] self.entities@[i]).wf()
        &&& forall|i: int|
            0 <= i < self.entities@.len() ==> (#[trigger] self.entities@[i]).entity.value
                < self.next_entity
    }

    /// The record for `entity`, if one exists.
    pub open spec fn spec_entity(&self, entity: Entity) -> Option<WorldEntity> {
        if spec_has_entity(self.entities@, entity) {
            Some(self.entities@[spec_entity_index(self.entities@, entity)])
        } else {
            None
        }
    }

    /// An empty world.
    pub fn new() -> (result: World)
        ensures
            result.wf(),
            result.entities@.len() == 0,
            result.map.valid@.len() == 0,
            result.map.structures@.len() == 0,
            result.map.ghosts@.len() == 0,
            result.next_entity == 0,
    {
        World { map: MapGeometry::new(), entities: Vec::new(), next_entity: 0 }
    }

    /// Whether this world satisfies its well-formedness conditions; checked
    /// at run time when a world is assembled by hand rather than through
    /// the engine's constructors and commands.
    pub fn check_wf(&self) -> (result: bool)
        ensures
            result == self.wf(),
    {
        if !self.map.check_wf() {
            return false;
        }
        let n = self.entities.len();
        let mut a: usize = 0;
        while a < n
            invariant
                n == self.entities@.len(),
                a <= n,
                self.map.wf(),
                forall|k: int, l: int|
                    0 <= k < l < a ==> self.entities@[k].entity != self.entities@[l].entity,
                forall|k: int| 0 <= k < a ==> (#[trigger] self.entities@[k]).wf(),
                forall|k: int|
                    0 <= k < a ==> (#[trigger] self.entities@[k]).entity.value < self.next_entity,
            decreases n - a,
        {
            let record = &self.entities[a];
            if !(record.entity.value < self.next_entity) {
                return false;
            }
            let input_ok = match &record.input {
                Some(inv) => inv.inventory.check_wf(),
                None => true,
            };
            let output_ok = match &record.output {
                Some(inv) => inv.inventory.check_wf(),
                None => true,
            };
            let storage_ok = match &record.storage {
                Some(inv) => inv.inventory.check_wf(),
                None => true,
            };
            let workers_ok = match &record.workers_present {
                Some(wp) => wp.current <= wp.max,
                None => true,
            };
            if !(input_ok && output_ok && storage_ok && workers_ok) {
                return false;
            }
            let mut b: usize = 0;
            while b < a
                invariant
                    b <= a < n,
                    n == self.entities@.len(),
                    forall|k: int|
                        0 <= k < b ==> self.entities@[k].entity != self.entities@[a as int].entity,
                decreases a - b,
            {
                if self.entities[b].entity.value == self.entities[a].entity.value {
                    return false;
                }
                b += 1;
            }
            a += 1;
        }
        true
    }

    /// The index into `entities` of the record for `entity`, if one exists.
    pub fn find_entity(&self, entity: Entity) -> (result: Option<usize>)
        requires
            self.wf(),
        ensures
            match result {
                Some(i) => spec_has_entity(self.entities@, entity) && spec_entity_index(
                    self.entities@,
                    entity,
                ) == i && i < self.entities@.len(),
                None => !spec_has_entity(self.entities@, entity),
            },
    {
        let n = self.entities.len();
        let mut i: usize = 0;
        while i < n
            invariant
                n == self.entities@.len(),
                i <= n,
                self.wf(),
                forall|k: int| 0 <= k < i ==> self.entities@[k].entity != entity,
            decreases n - i,
        {
            if self.entities[i].entity.value == entity.value {
                proof {
                    lemma_entity_index_unique(self.entities@, entity, i as int);
                }
                return Some(i);
            }
            i += 1;
        }
        None
    }

    /// The workplace of variety `structure_id` on `tile_pos` that still has
    /// a free seat and is worth working at, if there is one.  A structure or
    /// ghost qualifies when its crafting is in progress and a seat is free.
    pub open spec fn spec_needs_work(&self, tile_pos: TilePos, structure_id: StructureId) -> Option<
        Entity,
    > {
        let occupant = if self.map.spec_structure_at(tile_pos) is Some {
            self.map.spec_structure_at(tile_pos)
        } else {
            self.map.spec_ghost_at(tile_pos)
        };
        match occupant {
            None => None,
            Some(e) => match self.spec_entity(e) {
                None => None,
                Some(record) => if record.structure_id == structure_id
                    && record.crafting_state == Some(CraftingState::InProgress) && (
                match record.workers_present {
                    Some(w) => w.current < w.max,
                    None => false,
                }) {
                    Some(e)
                } else {
                    None
                },
            },
        }
    }

    /// The workplace of variety `structure_id` on `tile_pos` that still
    /// needs workers, if there is one.
    pub fn needs_work(&self, tile_pos: TilePos, structure_id: StructureId) -> (result: Option<
        Entity,
    >)
        requires
            self.wf(),
        ensures
            result == self.spec_needs_work(tile_pos, structure_id),
    {
        let occupant = match self.map.get_structure(tile_pos) {
            Some(e) => Some(e),
            None => self.map.get_ghost(tile_pos),
        };
        let e = match occupant {
            None => {
                return None;
            },
            Some(e) => e,
        };
        let i = match self.find_entity(e) {
            None => {
                return None;
            },
            Some(i) => i,
        };
        let record = &self.entities[i];
        let crafting_in_progress = match record.crafting_state {
            Some(CraftingState::InProgress) => true,
            _ => false,
        };
        let seat_free = match &record.workers_present {
            Some(w) => w.needs_more(),
            None => false,
        };
        if record.structure_id.value == structure_id.value && crafting_in_progress && seat_free {
            Some(e)
        } else {
            None
        }
    }

    /// The structure of variety `structure_id` on `tile_pos` that waits for
    /// demolition, if there is one.
    pub open spec fn spec_needs_demolition(
        &self,
        tile_pos: TilePos,
        structure_id: StructureId,
    ) -> Option<Entity> {
        match self.map.spec_structure_at(tile_pos) {
            None => None,
            Some(e) => match self.spec_entity(e) {
                None => None,
                Some(record) => if record.structure_id == structure_id
                    && record.marked_for_demolition {
                    Some(e)
                } else {
                    None
                },
            },
        }
    }

    /// Removes the record belonging to `entity`, despawning the object.
    /// Nothing changes when no such record exists.
    pub fn remove_entity_record(&mut self, entity: Entity)
        requires
            old(self).wf(),
        ensures
            final(self).wf(),
            !spec_has_entity(old(self).entities@, entity) ==> *final(self) == *old(self),
            spec_has_entity(old(self).entities@, entity) ==> final(self).entities@ == old(
                self,
            ).entities@.remove(spec_entity_index(old(self).entities@, entity)),
            final(self).map == old(self).map,
            final(self).next_entity == old(self).next_entity,
            forall|e2: Entity|
                e2 != entity ==> #[trigger] final(self).spec_entity(e2) == old(self).spec_entity(
                    e2,
                ),
            !spec_has_entity(final(self).entities@, entity),
    {
        match self.find_entity(entity) {
            None => {},
            Some(i) => {
                let ghost prev = self.entities@;
                self.entities.remove(i);
                proof {
                    lemma_remove_keeps_records(prev, i as int);
                    assert forall|k: int|
                        0 <= k < self.entities@.len() implies self.next_entity > (
                    #[trigger] self.entities@[k]).entity.value && self.entities@[k].wf() by {
                        assert(self.entities@[k] == if k < i as int {
                            prev[k]
                        } else {
                            prev[k + 1]
                        });
                    }
                    assert forall|e2: Entity| e2 != entity implies #[trigger] self.spec_entity(e2)
                        == old(self).spec_entity(e2) by {
                        lemma_remove_keeps_other_entities(prev, i as int, e2);
                    }
                    if spec_has_entity(self.entities@, entity) {
                        let k = spec_entity_index(self.entities@, entity);
                        assert(self.entities@[k] == if k < i as int {
                            prev[k]
                        } else {
                            prev[k + 1]
                        });
                    }
                }
            },
        }
    }

    /// The structure of variety `structure_id` on `tile_pos` that waits for
    /// demolition, if there is one.
    pub fn needs_demolition(&self, tile_pos: TilePos, structure_id: StructureId) -> (result: Option<
        Entity,
    >)
        requires
            self.wf(),
        ensures
            result == self.spec_needs_demolition(tile_pos, structure_id),
    {
        let e = match self.map.get_structure(tile_pos) {
            None => {
                return None;
            },
            Some(e) => e,
        };
        let i = match self.find_entity(e) {
            None => {
                return None;
            },
            Some(i) => i,
        };
        let record = &self.entities[i];
        if record.structure_id.value == structure_id.value && record.marked_for_demolition {
            Some(e)
        } else {
            None
        }
    }
}

} // verus!
