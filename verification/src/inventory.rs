//! Inventories with all-or-nothing item transfer.
//!
//! Every container in the world holds items in slots, one slot per item
//! variety, each with its own capacity.  Transfers never partially apply:
//! either the full requested amount moves and the call reports success, or
//! the inventory is left exactly as it was and the call reports how much was
//! missing or would not fit.

use vstd::prelude::*;

use crate::ids::ItemId;
use crate::items::{ItemCount, ItemManifest};

verus! {

/// One slot of an inventory: an item variety, how many are present, and how
/// many the slot can hold.
#[derive(Clone, Copy, Debug, PartialEq, Eq, Structural)]
pub struct ItemSlot {
    /// The item variety stored in this slot.
    pub item_id: ItemId,
    /// How many items the slot currently holds.
    pub count: usize,
    /// How many items the slot can hold.
    pub max_item_count: usize,
}

/// The requested amount did not fit into the inventory; nothing was added.
#[derive(Clone, Copy, Debug, PartialEq, Eq, Structural)]
pub struct AddOneItemError {
    /// How many of the requested items found no room.
    pub excess_count: usize,
}

/// The requested amount was not available in the inventory; nothing was
/// removed.
#[derive(Clone, Copy, Debug, PartialEq, Eq, Structural)]
pub struct RemoveOneItemError {
    /// How many of the requested items were not there.
    pub missing_count: usize,
}

/// Each item variety has at most one slot in `s`.
pub open spec fn spec_unique_items(s: Seq<ItemSlot>) -> bool {
    forall|i: int, j: int| 0 <= i < j < s.len() ==> s[i].item_id != s[j].item_id
}

/// `s` has a slot for `item`.
pub open spec fn spec_has_slot(s: Seq<ItemSlot>, item: ItemId) -> bool {
    exists|i: int| 0 <= i < s.len() && s[i].item_id == item
}

/// The index of the slot for `item`; meaningful only when one exists.
pub open spec fn spec_slot_index(s: Seq<ItemSlot>, item: ItemId) -> int {
    choose|i: int| 0 <= i < s.len() && s[i].item_id == item
}

/// How many of `item` the slots `s` hold.
pub open spec fn spec_count(s: Seq<ItemSlot>, item: ItemId) -> int {
    if spec_has_slot(s, item) {
        s[spec_slot_index(s, item)].count as int
    } else {
        0
    }
}

/// How much room the existing slot for `item` still has (0 without a slot).
pub open spec fn spec_slot_space(s: Seq<ItemSlot>, item: ItemId) -> int {
    if spec_has_slot(s, item) {
        s[spec_slot_index(s, item)].max_item_count - s[spec_slot_index(s, item)].count
    } else {
        0
    }
}

/// The slots after removing `count` of `item` all-or-nothing: the slot for
/// `item` shrinks by `count` when it holds enough, otherwise nothing
/// changes.
pub open spec fn spec_removed_slots(s: Seq<ItemSlot>, item: ItemId, count: int) -> Seq<ItemSlot> {
    if spec_has_slot(s, item) && count <= s[spec_slot_index(s, item)].count {
        let i = spec_slot_index(s, item);
        let slot = s[i];
        s.update(
            i,
            ItemSlot {
                item_id: slot.item_id,
                count: (slot.count - count) as usize,
                max_item_count: slot.max_item_count,
            },
        )
    } else {
        s
    }
}

/// The slots after adding `count` of `item` all-or-nothing: the slot for
/// `item` grows by `count` when it has room; a new slot of capacity
/// `stack_size` opens when allowed and the amount fits; otherwise nothing
/// changes.
pub open spec fn spec_added_slots(
    s: Seq<ItemSlot>,
    item: ItemId,
    count: int,
    stack_size: int,
    can_open_slot: bool,
) -> Seq<ItemSlot> {
    if spec_has_slot(s, item) {
        let i = spec_slot_index(s, item);
        let slot = s[i];
        if count <= slot.max_item_count - slot.count {
            s.update(
                i,
                ItemSlot {
                    item_id: slot.item_id,
                    count: (slot.count + count) as usize,
                    max_item_count: slot.max_item_count,
                },
            )
        } else {
            s
        }
    } else if count > 0 && can_open_slot && count <= stack_size {
        s.push(
            ItemSlot { item_id: item, count: count as usize, max_item_count: stack_size as usize },
        )
    } else {
        s
    }
}

/// When slot ids are unique, any index holding `item` is the slot index.
proof fn lemma_slot_index_unique(s: Seq<ItemSlot>, item: ItemId, i: int)
    requires
        spec_unique_items(s),
        0 <= i < s.len(),
        s[i].item_id == item,
    ensures
        spec_has_slot(s, item),
        spec_slot_index(s, item) == i,
{
    assert(spec_has_slot(s, item));
    let j = spec_slot_index(s, item);
    assert(0 <= j < s.len() && s[j].item_id == item);
}

/// A container of item slots with a bound on how many slots may exist and an
/// optional restriction to a single item variety.
#[derive(Clone, Debug, PartialEq, Eq)]
pub struct Inventory {
    /// The slots currently in use, at most one per item variety.
    pub slots: Vec<ItemSlot>,
    /// How many slots this inventory can have.
    pub max_slot_count: usize,
    /// When set, only this item variety may be stored here.
    pub reserved_for: Option<ItemId>,
}

impl Inventory {
    /// Slots are unique per item, within their capacities, within the slot
    /// bound, and within the reservation; all bounds are small enough that
    /// capacity arithmetic cannot overflow.
    pub open spec fn wf(&self) -> bool {
        &&& spec_unique_items(self.slots@)
        &&& forall|i: int|
            0 <= i < self.slots@.len() ==> (#[trigger] self.slots@[i]).count
                <= self.slots@[i].max_item_count <= 0xFFFF
        &&& self.slots@.len() <= self.max_slot_count <= 0xFFFF
        &&& match self.reserved_for {
            Some(r) => forall|i: int|
                0 <= i < self.slots@.len() ==> (#[trigger] self.slots@[i]).item_id == r,
            None => true,
        }
    }

    /// How much of `item` could still be accepted, given the stack size a new
    /// slot would get and whether opening a new slot is allowed.
    pub open spec fn spec_space_for(
        &self,
        item: ItemId,
        stack_size: int,
        allow_new_slot: bool,
    ) -> int {
        if spec_has_slot(self.slots@, item) {
            spec_slot_space(self.slots@, item)
        } else if allow_new_slot && self.reservation_accepts(item) && self.slots@.len()
            < self.max_slot_count {
            stack_size
        } else {
            0
        }
    }

    /// The reservation, if any, allows `item`.
    pub open spec fn reservation_accepts(&self, item: ItemId) -> bool {
        match self.reserved_for {
            Some(r) => r == item,
            None => true,
        }
    }

    /// A fresh inventory with no slots.
    pub fn new(max_slot_count: usize, reserved_for: Option<ItemId>) -> (result: Inventory)
        requires
            max_slot_count <= 0xFFFF,
        ensures
            result.wf(),
            result.slots@.len() == 0,
            result.max_slot_count == max_slot_count,
            result.reserved_for == reserved_for,
    {
        Inventory { slots: Vec::new(), max_slot_count, reserved_for }
    }

    /// An inventory with a single empty slot reserving room for `count` of
    /// `item_id`.
    pub fn new_from_item(item_id: ItemId, count: usize) -> (result: Inventory)
        requires
            count <= 0xFFFF,
        ensures
            result.wf(),
            result.reserved_for == Some(item_id),
            spec_count(result.slots@, item_id) == 0,
            spec_slot_space(result.slots@, item_id) == count,
            forall|o: ItemId| o != item_id ==> spec_count(result.slots@, o) == 0,
    {
        let mut slots: Vec<ItemSlot> = Vec::new();
        slots.push(ItemSlot { item_id, count: 0, max_item_count: count });
        let result = Inventory { slots, max_slot_count: 1, reserved_for: Some(item_id) };
        proof {
            lemma_slot_index_unique(result.slots@, item_id, 0);
            assert forall|o: ItemId| o != item_id implies spec_count(result.slots@, o) == 0 by {
                assert(!spec_has_slot(result.slots@, o));
            }
        }
        result
    }

    /// Whether this inventory satisfies its well-formedness bounds; checked
    /// at run time when containers are assembled from untrusted input.
    pub fn check_wf(&self) -> (result: bool)
        ensures
            result == self.wf(),
    {
        if !(self.max_slot_count <= 0xFFFF) {
            return false;
        }
        if !(self.slots.len() <= self.max_slot_count) {
            return false;
        }
        let n = self.slots.len();
        let mut i: usize = 0;
        while i < n
            invariant
                n == self.slots@.len(),
                i <= n,
                self.slots@.len() <= self.max_slot_count <= 0xFFFF,
                forall|k: int|
                    0 <= k < i ==> (#[trigger] self.slots@[k]).count
                        <= self.slots@[k].max_item_count <= 0xFFFF,
                forall|k: int, l: int|
                    0 <= k < l < i ==> self.slots@[k].item_id != self.slots@[l].item_id,
                forall|k: int|
                    0 <= k < i ==> (match self.reserved_for {
                        Some(r) => (#[trigger] self.slots@[k]).item_id == r,
                        None => true,
                    }),
            decreases n - i,
        {
            let slot = self.slots[i];
            if !(slot.count <= slot.max_item_count && slot.max_item_count <= 0xFFFF) {
                return false;
            }
            match self.reserved_for {
                Some(r) => {
                    if slot.item_id.value != r.value {
                        return false;
                    }
                },
                None => {},
            }
            let mut j: usize = 0;
            while j < i
                invariant
                    j <= i < n,
                    n == self.slots@.len(),
                    slot == self.slots@[i as int],
                    forall|k: int|
                        0 <= k < j ==> self.slots@[k].item_id != self.slots@[i as int].item_id,
                decreases i - j,
            {
                if self.slots[j].item_id == slot.item_id {
                    return false;
                }
                j += 1;
            }
            i += 1;
        }
        true
    }

    /// A copy of this inventory with the same slots, bound and reservation.
    pub fn duplicate(&self) -> (result: Inventory)
        ensures
            result.slots@ == self.slots@,
            result.max_slot_count == self.max_slot_count,
            result.reserved_for == self.reserved_for,
    {
        let n = self.slots.len();
        let mut slots: Vec<ItemSlot> = Vec::new();
        let mut i: usize = 0;
        while i < n
            invariant
                n == self.slots@.len(),
                i <= n,
                slots@ == self.slots@.take(i as int),
            decreases n - i,
        {
            slots.push(self.slots[i]);
            proof {
                assert(slots@ =~= self.slots@.take(i as int + 1));
            }
            i += 1;
        }
        proof {
            assert(self.slots@.take(n as int) =~= self.slots@);
        }
        Inventory { slots, max_slot_count: self.max_slot_count, reserved_for: self.reserved_for }
    }

    /// How many of `item` this inventory holds.
    pub fn item_count(&self, item: ItemId) -> (result: usize)
        requires
            self.wf(),
        ensures
            result == spec_count(self.slots@, item),
    {
        let n = self.slots.len();
        let mut i: usize = 0;
        while i < n
            invariant
                n == self.slots@.len(),
                i <= n,
                self.wf(),
                forall|k: int| 0 <= k < i ==> self.slots@[k].item_id != item,
            decreases n - i,
        {
            if self.slots[i].item_id == item {
                proof {
                    lemma_slot_index_unique(self.slots@, item, i as int);
                }
                return self.slots[i].count;
            }
            i += 1;
        }
        proof {
            assert(!spec_has_slot(self.slots@, item));
        }
        0
    }

    /// The index of the slot for `item`, if one exists.
    fn find_slot(&self, item: ItemId) -> (result: Option<usize>)
        requires
            self.wf(),
        ensures
            match result {
                Some(i) => spec_has_slot(self.slots@, item) && spec_slot_index(self.slots@, item)
                    == i && i < self.slots@.len(),
                None => !spec_has_slot(self.slots@, item),
            },
    {
        let n = self.slots.len();
        let mut i: usize = 0;
        while i < n
            invariant
                n == self.slots@.len(),
                i <= n,
                self.wf(),
                forall|k: int| 0 <= k < i ==> self.slots@[k].item_id != item,
            decreases n - i,
        {
            if self.slots[i].item_id == item {
                proof {
                    lemma_slot_index_unique(self.slots@, item, i as int);
                }
                return Some(i);
            }
            i += 1;
        }
        None
    }

    /// Adds the requested amount entirely, or not at all.  `stack_size` is
    /// the capacity a newly opened slot would get; `allow_new_slot` is false
    /// for inventories that only fill pre-reserved slots.
    fn add_all_or_nothing(
        &mut self,
        item_count: &ItemCount,
        stack_size: usize,
        allow_new_slot: bool,
    ) -> (result: Result<(), AddOneItemError>)
        requires
            old(self).wf(),
            1 <= stack_size <= 0xFFFF,
        ensures
            final(self).wf(),
            final(self).max_slot_count == old(self).max_slot_count,
            final(self).reserved_for == old(self).reserved_for,
            result is Ok <==> old(self).spec_space_for(
                item_count.item_id,
                stack_size as int,
                allow_new_slot,
            ) >= item_count.count,
            result is Ok ==> spec_count(final(self).slots@, item_count.item_id) == spec_count(
                old(self).slots@,
                item_count.item_id,
            ) + item_count.count,
            result is Ok ==> forall|o: ItemId|
                o != item_count.item_id ==> spec_count(final(self).slots@, o) == spec_count(
                    old(self).slots@,
                    o,
                ),
            result is Ok ==> final(self).spec_space_for(
                item_count.item_id,
                stack_size as int,
                allow_new_slot,
            ) == old(self).spec_space_for(item_count.item_id, stack_size as int, allow_new_slot)
                - item_count.count,
            result matches Err(e) ==> *final(self) == *old(self) && e.excess_count
                == item_count.count - old(self).spec_space_for(
                item_count.item_id,
                stack_size as int,
                allow_new_slot,
            ),
            final(self).slots@ == spec_added_slots(
                old(self).slots@,
                item_count.item_id,
                item_count.count as int,
                stack_size as int,
                allow_new_slot && old(self).reservation_accepts(item_count.item_id) && old(
                    self,
                ).slots@.len() < old(self).max_slot_count,
            ),
    {
        let item = item_count.item_id();
        let count = item_count.count();
        match self.find_slot(item) {
            Some(i) => {
                let slot = self.slots[i];
                let space = slot.max_item_count - slot.count;
                if count <= space {
                    let updated = ItemSlot {
                        item_id: slot.item_id,
                        count: slot.count + count,
                        max_item_count: slot.max_item_count,
                    };
                    self.slots[i] = updated;
                    proof {
                        assert forall|k: int, l: int|
                            0 <= k < l < self.slots@.len() implies self.slots@[k].item_id
                            != self.slots@[l].item_id by {
                            assert(self.slots@[k].item_id == old(self).slots@[k].item_id);
                            assert(self.slots@[l].item_id == old(self).slots@[l].item_id);
                        }
                        lemma_slot_index_unique(self.slots@, item, i as int);
                        assert forall|o: ItemId| o != item implies spec_count(self.slots@, o)
                            == spec_count(old(self).slots@, o) by {
                            lemma_same_ids_same_count(old(self).slots@, self.slots@, o, i as int);
                        }
                    }
                    Ok(())
                } else {
                    Err(AddOneItemError { excess_count: count - space })
                }
            },
            None => {
                let may_open = allow_new_slot && self.slots.len() < self.max_slot_count && (
                match self.reserved_for {
                    Some(r) => r.value == item.value,
                    None => true,
                });
                let space: usize = if may_open {
                    stack_size
                } else {
                    0
                };
                if count == 0 {
                    return Ok(());
                }
                if count <= space {
                    self.slots.push(
                        ItemSlot { item_id: item, count, max_item_count: stack_size },
                    );
                    proof {
                        let n = old(self).slots@.len() as int;
                        assert forall|k: int, l: int|
                            0 <= k < l < self.slots@.len() implies self.slots@[k].item_id
                            != self.slots@[l].item_id by {
                            if l < n {
                                assert(old(self).slots@[k].item_id != old(
                                    self,
                                ).slots@[l].item_id);
                            } else {
                                assert(self.slots@[l].item_id == item);
                                assert(self.slots@[k] == old(self).slots@[k]);
                            }
                        }
                        lemma_slot_index_unique(self.slots@, item, n);
                        assert forall|o: ItemId| o != item implies spec_count(self.slots@, o)
                            == spec_count(old(self).slots@, o) by {
                            lemma_push_preserves_count(old(self).slots@, self.slots@[n], o);
                        }
                    }
                    Ok(())
                } else {
                    Err(AddOneItemError { excess_count: count - space })
                }
            },
        }
    }

    /// Removes the requested amount entirely, or not at all.  An emptied slot
    /// is kept, so the room it reserved stays with its item variety.
    fn remove_all_or_nothing(&mut self, item_count: &ItemCount) -> (result: Result<
        (),
        RemoveOneItemError,
    >)
        requires
            old(self).wf(),
        ensures
            final(self).wf(),
            final(self).max_slot_count == old(self).max_slot_count,
            final(self).reserved_for == old(self).reserved_for,
            result is Ok <==> spec_count(old(self).slots@, item_count.item_id)
                >= item_count.count,
            result is Ok ==> spec_count(final(self).slots@, item_count.item_id) == spec_count(
                old(self).slots@,
                item_count.item_id,
            ) - item_count.count,
            result is Ok ==> forall|o: ItemId|
                o != item_count.item_id ==> spec_count(final(self).slots@, o) == spec_count(
                    old(self).slots@,
                    o,
                ),
            result matches Err(e) ==> *final(self) == *old(self) && e.missing_count
                == item_count.count - spec_count(old(self).slots@, item_count.item_id),
            final(self).slots@ == spec_removed_slots(
                old(self).slots@,
                item_count.item_id,
                item_count.count as int,
            ),
    {
        let item = item_count.item_id();
        let count = item_count.count();
        match self.find_slot(item) {
            Some(i) => {
                let slot = self.slots[i];
                if count <= slot.count {
                    let updated = ItemSlot {
                        item_id: slot.item_id,
                        count: slot.count - count,
                        max_item_count: slot.max_item_count,
                    };
                    self.slots[i] = updated;
                    proof {
                        assert forall|k: int, l: int|
                            0 <= k < l < self.slots@.len() implies self.slots@[k].item_id
                            != self.slots@[l].item_id by {
                            assert(self.slots@[k].item_id == old(self).slots@[k].item_id);
                            assert(self.slots@[l].item_id == old(self).slots@[l].item_id);
                        }
                        lemma_slot_index_unique(self.slots@, item, i as int);
                        assert forall|o: ItemId| o != item implies spec_count(self.slots@, o)
                            == spec_count(old(self).slots@, o) by {
                            lemma_same_ids_same_count(old(self).slots@, self.slots@, o, i as int);
                        }
                    }
                    Ok(())
                } else {
                    Err(RemoveOneItemError { missing_count: count - slot.count })
                }
            },
            None => {
                if count == 0 {
                    Ok(())
                } else {
                    Err(RemoveOneItemError { missing_count: count })
                }
            },
        }
    }
}

/// Two slot lists that differ only at index `i`, where the item id is the
/// same, agree on the count of every other item.
proof fn lemma_same_ids_same_count(a: Seq<ItemSlot>, b: Seq<ItemSlot>, o: ItemId, i: int)
    requires
        spec_unique_items(a),
        spec_unique_items(b),
        a.len() == b.len(),
        0 <= i < a.len(),
        a[i].item_id == b[i].item_id,
        forall|k: int| 0 <= k < a.len() && k != i ==> a[k] == b[k],
        o != a[i].item_id,
    ensures
        spec_count(b, o) == spec_count(a, o),
{
    if spec_has_slot(a, o) {
        let k = spec_slot_index(a, o);
        assert(k != i);
        assert(b[k].item_id == o);
        lemma_slot_index_unique(b, o, k);
    } else {
        if spec_has_slot(b, o) {
            let k = spec_slot_index(b, o);
            assert(k != i);
            assert(a[k].item_id == o);
        }
    }
}

/// Pushing a slot for a new item does not change the count of other items.
proof fn lemma_push_preserves_count(a: Seq<ItemSlot>, slot: ItemSlot, o: ItemId)
    requires
        spec_unique_items(a),
        spec_unique_items(a.push(slot)),
        o != slot.item_id,
    ensures
        spec_count(a.push(slot), o) == spec_count(a, o),
{
    let b = a.push(slot);
    if spec_has_slot(a, o) {
        let k = spec_slot_index(a, o);
        assert(b[k].item_id == o);
        lemma_slot_index_unique(b, o, k);
    } else {
        if spec_has_slot(b, o) {
            let k = spec_slot_index(b, o);
            assert(k < a.len());
            assert(a[k].item_id == o);
        }
    }
}

/// An inventory that receives the ingredients a structure (or a ghost under
/// construction) still needs; room exists only in pre-reserved slots.
#[derive(Clone, Debug, PartialEq, Eq)]
pub struct InputInventory {
    /// The slots holding the received ingredients.
    pub inventory: Inventory,
}

impl InputInventory {
    /// How much room the reserved slot for `item` still has.
    pub fn remaining_reserved_space_for_item(&self, item: ItemId) -> (result: usize)
        requires
            self.inventory.wf(),
        ensures
            result == spec_slot_space(self.inventory.slots@, item),
    {
        match self.inventory.find_slot(item) {
            Some(i) => self.inventory.slots[i].max_item_count - self.inventory.slots[i].count,
            None => 0,
        }
    }

    /// Adds the full amount into the reserved slot, or nothing.
    pub fn add_item_all_or_nothing(&mut self, item_count: &ItemCount, item_manifest: &ItemManifest)
        -> (result: Result<(), AddOneItemError>)
        requires
            old(self).inventory.wf(),
            item_manifest.wf(),
        ensures
            final(self).inventory.wf(),
            final(self).inventory.max_slot_count == old(self).inventory.max_slot_count,
            final(self).inventory.reserved_for == old(self).inventory.reserved_for,
            result is Ok <==> spec_slot_space(old(self).inventory.slots@, item_count.item_id)
                >= item_count.count,
            result is Ok ==> spec_count(final(self).inventory.slots@, item_count.item_id)
                == spec_count(old(self).inventory.slots@, item_count.item_id) + item_count.count,
            result is Ok ==> forall|o: ItemId|
                o != item_count.item_id ==> spec_count(final(self).inventory.slots@, o)
                    == spec_count(old(self).inventory.slots@, o),
            result matches Err(e) ==> *final(self) == *old(self) && e.excess_count
                == item_count.count - spec_slot_space(
                old(self).inventory.slots@,
                item_count.item_id,
            ),
            final(self).inventory.slots@ == spec_added_slots(
                old(self).inventory.slots@,
                item_count.item_id,
                item_count.count as int,
                item_manifest.spec_stack_size(item_count.item_id) as int,
                false,
            ),
    {
        let stack_size = item_manifest.stack_size(item_count.item_id());
        let r = self.inventory.add_all_or_nothing(item_count, stack_size, false);
        proof {
            if item_count.count > 0 {
                assert(old(self).inventory.spec_space_for(
                    item_count.item_id,
                    item_manifest.spec_stack_size(item_count.item_id) as int,
                    false,
                ) == spec_slot_space(old(self).inventory.slots@, item_count.item_id));
            }
        }
        r
    }
}

/// An inventory that offers finished goods for pickup.
#[derive(Clone, Debug, PartialEq, Eq)]
pub struct OutputInventory {
    /// The slots holding the offered goods.
    pub inventory: Inventory,
}

impl OutputInventory {
    /// How many of `item` are available for pickup.
    pub fn item_count(&self, item: ItemId) -> (result: usize)
        requires
            self.inventory.wf(),
        ensures
            result == spec_count(self.inventory.slots@, item),
    {
        self.inventory.item_count(item)
    }

    /// Removes the full amount, or nothing.
    pub fn remove_item_all_or_nothing(&mut self, item_count: &ItemCount) -> (result: Result<
        (),
        RemoveOneItemError,
    >)
        requires
            old(self).inventory.wf(),
        ensures
            final(self).inventory.wf(),
            final(self).inventory.max_slot_count == old(self).inventory.max_slot_count,
            final(self).inventory.reserved_for == old(self).inventory.reserved_for,
            result is Ok <==> spec_count(old(self).inventory.slots@, item_count.item_id)
                >= item_count.count,
            result is Ok ==> spec_count(final(self).inventory.slots@, item_count.item_id)
                == spec_count(old(self).inventory.slots@, item_count.item_id) - item_count.count,
            result is Ok ==> forall|o: ItemId|
                o != item_count.item_id ==> spec_count(final(self).inventory.slots@, o)
                    == spec_count(old(self).inventory.slots@, o),
            result matches Err(e) ==> *final(self) == *old(self) && e.missing_count
                == item_count.count - spec_count(old(self).inventory.slots@, item_count.item_id),
            final(self).inventory.slots@ == spec_removed_slots(
                old(self).inventory.slots@,
                item_count.item_id,
                item_count.count as int,
            ),
    {
        self.inventory.remove_all_or_nothing(item_count)
    }
}

/// A general warehouse inventory: it opens a new slot for any acceptable item
/// while it has room for one.
#[derive(Clone, Debug, PartialEq, Eq)]
pub struct StorageInventory {
    /// The slots holding the stored goods.
    pub inventory: Inventory,
}

impl StorageInventory {
    /// A fresh storage inventory with `max_slot_count` empty slots available,
    /// optionally reserved for a single item variety.
    pub fn new(max_slot_count: usize, reserved_for: Option<ItemId>) -> (result: StorageInventory)
        requires
            max_slot_count <= 0xFFFF,
        ensures
            result.inventory.wf(),
            result.inventory.slots@.len() == 0,
            result.inventory.max_slot_count == max_slot_count,
            result.inventory.reserved_for == reserved_for,
    {
        StorageInventory { inventory: Inventory::new(max_slot_count, reserved_for) }
    }

    /// How many of `item` are stored here.
    pub fn item_count(&self, item: ItemId) -> (result: usize)
        requires
            self.inventory.wf(),
        ensures
            result == spec_count(self.inventory.slots@, item),
    {
        self.inventory.item_count(item)
    }

    /// How many more of `item` could be stored here.
    pub fn remaining_space_for_item(&self, item: ItemId, item_manifest: &ItemManifest) -> (result:
        usize)
        requires
            self.inventory.wf(),
            item_manifest.wf(),
        ensures
            result == self.inventory.spec_space_for(
                item,
                item_manifest.spec_stack_size(item) as int,
                true,
            ),
    {
        match self.inventory.find_slot(item) {
            Some(i) => self.inventory.slots[i].max_item_count - self.inventory.slots[i].count,
            None => {
                let accepts = match self.inventory.reserved_for {
                    Some(r) => r.value == item.value,
                    None => true,
                };
                if accepts && self.inventory.slots.len() < self.inventory.max_slot_count {
                    item_manifest.stack_size(item)
                } else {
                    0
                }
            },
        }
    }

    /// Adds the full amount, or nothing.
    pub fn add_item_all_or_nothing(&mut self, item_count: &ItemCount, item_manifest: &ItemManifest)
        -> (result: Result<(), AddOneItemError>)
        requires
            old(self).inventory.wf(),
            item_manifest.wf(),
        ensures
            final(self).inventory.wf(),
            final(self).inventory.max_slot_count == old(self).inventory.max_slot_count,
            final(self).inventory.reserved_for == old(self).inventory.reserved_for,
            result is Ok <==> old(self).inventory.spec_space_for(
                item_count.item_id,
                item_manifest.spec_stack_size(item_count.item_id) as int,
                true,
            ) >= item_count.count,
            result is Ok ==> spec_count(final(self).inventory.slots@, item_count.item_id)
                == spec_count(old(self).inventory.slots@, item_count.item_id) + item_count.count,
            result is Ok ==> forall|o: ItemId|
                o != item_count.item_id ==> spec_count(final(self).inventory.slots@, o)
                    == spec_count(old(self).inventory.slots@, o),
            result matches Err(e) ==> *final(self) == *old(self) && e.excess_count
                == item_count.count - old(self).inventory.spec_space_for(
                item_count.item_id,
                item_manifest.spec_stack_size(item_count.item_id) as int,
                true,
            ),
            final(self).inventory.slots@ == spec_added_slots(
                old(self).inventory.slots@,
                item_count.item_id,
                item_count.count as int,
                item_manifest.spec_stack_size(item_count.item_id) as int,
                old(self).inventory.reservation_accepts(item_count.item_id) && old(
                    self,
                ).inventory.slots@.len() < old(self).inventory.max_slot_count,
            ),
    {
        let stack_size = item_manifest.stack_size(item_count.item_id());
        self.inventory.add_all_or_nothing(item_count, stack_size, true)
    }

    /// Removes the full amount, or nothing.
    pub fn remove_item_all_or_nothing(&mut self, item_count: &ItemCount) -> (result: Result<
        (),
        RemoveOneItemError,
    >)
        requires
            old(self).inventory.wf(),
        ensures
            final(self).inventory.wf(),
            final(self).inventory.max_slot_count == old(self).inventory.max_slot_count,
            final(self).inventory.reserved_for == old(self).inventory.reserved_for,
            result is Ok <==> spec_count(old(self).inventory.slots@, item_count.item_id)
                >= item_count.count,
            result is Ok ==> spec_count(final(self).inventory.slots@, item_count.item_id)
                == spec_count(old(self).inventory.slots@, item_count.item_id) - item_count.count,
            result is Ok ==> forall|o: ItemId|
                o != item_count.item_id ==> spec_count(final(self).inventory.slots@, o)
                    == spec_count(old(self).inventory.slots@, o),
            result matches Err(e) ==> *final(self) == *old(self) && e.missing_count
                == item_count.count - spec_count(old(self).inventory.slots@, item_count.item_id),
            final(self).inventory.slots@ == spec_removed_slots(
                old(self).inventory.slots@,
                item_count.item_id,
                item_count.count as int,
            ),
    {
        self.inventory.remove_all_or_nothing(item_count)
    }
}

} // verus!
