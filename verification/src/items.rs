//! Items and the read-only item manifest.

use vstd::prelude::*;

use crate::ids::ItemId;

verus! {

/// A specific amount of a given item.
#[derive(Debug, Clone, PartialEq, Eq, Structural)]
pub struct ItemCount {
    /// The unique identifier of the item being counted.
    pub item_id: ItemId,

    /// The number of items.
    pub count: usize,
}

impl ItemCount {
    /// Create a new item count with the given number of items.
    pub fn new(item_id: ItemId, count: usize) -> (result: ItemCount)
        ensures
            result.item_id == item_id,
            result.count == count,
    {
        ItemCount { item_id, count }
    }

    /// A single one of the given item.
    pub fn one(item_id: ItemId) -> (result: ItemCount)
        ensures
            result.item_id == item_id,
            result.count == 1,
    {
        ItemCount { item_id, count: 1 }
    }

    /// The unique identifier of the item being counted.
    pub fn item_id(&self) -> (result: ItemId)
        ensures
            result == self.item_id,
    {
        self.item_id
    }

    /// The number of items.
    pub fn count(&self) -> (result: usize)
        ensures
            result == self.count,
    {
        self.count
    }

    /// The pretty text formatting of this type: the item's name followed by
    /// the count in parentheses.
    pub fn display(&self, item_manifest: &ItemManifest) -> (result: String)
        requires
            item_manifest.wf(),
            item_manifest.spec_has_item(self.item_id),
        ensures
            result@ == item_manifest.spec_name(self.item_id) + ", ("@ + crate::text::spec_decimal(
                self.count as int,
            ) + ")"@,
    {
        let mut result = item_manifest.name(self.item_id).clone();
        result.append(", (");
        let count_text = crate::text::u64_to_string(self.count as u64);
        result.append(count_text.as_str());
        result.append(")");
        result
    }
}

/// Everything the engine reads about one item variety.
#[derive(Debug, Clone, PartialEq, Eq)]
pub struct ItemData {
    /// The display name of the item.
    pub name: String,
    /// How many of this item one inventory slot can hold.
    pub stack_size: usize,
}

/// One manifest entry: an item identifier together with its data.
#[derive(Debug, Clone, PartialEq, Eq)]
pub struct ItemEntry {
    /// The identifier the entry describes.
    pub id: ItemId,
    /// The data recorded for that identifier.
    pub data: ItemData,
}

/// The read-only lookup table of all item varieties.
#[derive(Debug, Clone, PartialEq, Eq)]
pub struct ItemManifest {
    /// One entry per item variety.
    pub entries: Vec<ItemEntry>,
}

impl ItemManifest {
    /// Each identifier appears at most once, and every stack size is a
    /// positive number small enough that capacity sums cannot overflow.
    pub open spec fn wf(&self) -> bool {
        &&& forall|i: int, j: int|
            0 <= i < j < self.entries@.len() ==> self.entries@[i].id != self.entries@[j].id
        &&& forall|i: int|
            0 <= i < self.entries@.len() ==> 1 <= #[trigger] self.entries@[i].data.stack_size
                <= 0xFFFF
    }

    /// The stack size recorded for `item_id`, or `1` for an unknown item.
    pub open spec fn spec_stack_size(&self, item_id: ItemId) -> usize {
        if exists|i: int| 0 <= i < self.entries@.len() && self.entries@[i].id == item_id {
            self.entries@[choose|i: int|
                0 <= i < self.entries@.len() && self.entries@[i].id == item_id].data.stack_size
        } else {
            1
        }
    }

    /// An empty manifest.
    pub fn new() -> (result: ItemManifest)
        ensures
            result.entries@.len() == 0,
            result.wf(),
    {
        ItemManifest { entries: Vec::new() }
    }

    /// Records `data` for `item_id`; succeeds exactly when the identifier
    /// is not yet present and the stack size is in range.
    pub fn insert(&mut self, id: ItemId, data: ItemData) -> (result: bool)
        requires
            old(self).wf(),
        ensures
            final(self).wf(),
            result <==> (1 <= data.stack_size <= 0xFFFF && !old(self).spec_has_item(id)),
            result ==> final(self).entries@ == old(self).entries@.push(ItemEntry { id, data }),
            !result ==> *final(self) == *old(self),
    {
        if data.stack_size < 1 || data.stack_size > 0xFFFF {
            return false;
        }
        let n = self.entries.len();
        let mut i: usize = 0;
        while i < n
            invariant
                n == self.entries@.len(),
                i <= n,
                forall|k: int| 0 <= k < i ==> self.entries@[k].id != id,
                self.wf(),
                *self == *old(self),
            decreases n - i,
        {
            if self.entries[i].id == id {
                return false;
            }
            i += 1;
        }
        self.entries.push(ItemEntry { id, data });
        true
    }

    /// The manifest has an entry for `item_id`.
    pub open spec fn spec_has_item(&self, item_id: ItemId) -> bool {
        exists|i: int| 0 <= i < self.entries@.len() && self.entries@[i].id == item_id
    }

    /// The name recorded for `item_id`; meaningful only when an entry
    /// exists.
    pub open spec fn spec_name(&self, item_id: ItemId) -> Seq<char> {
        self.entries@[choose|i: int|
            0 <= i < self.entries@.len() && self.entries@[i].id == item_id].data.name@
    }

    /// The name recorded for `item_id`.
    pub fn name(&self, item_id: ItemId) -> (result: &String)
        requires
            self.wf(),
            self.spec_has_item(item_id),
        ensures
            result@ == self.spec_name(item_id),
    {
        let n = self.entries.len();
        let mut i: usize = 0;
        while i < n
            invariant
                n == self.entries@.len(),
                i <= n,
                self.wf(),
                self.spec_has_item(item_id),
                forall|k: int| 0 <= k < i ==> self.entries@[k].id != item_id,
            decreases n - i,
        {
            if self.entries[i].id == item_id {
                proof {
                    let j = choose|j: int|
                        0 <= j < self.entries@.len() && self.entries@[j].id == item_id;
                    assert(j == i as int);
                }
                return &self.entries[i].data.name;
            }
            i += 1;
        }
        proof {
            let j = choose|j: int|
                0 <= j < self.entries@.len() && self.entries@[j].id == item_id;
            assert(false);
        }
        unreached()
    }

    /// The stack size recorded for `item_id`, or `1` for an unknown item.
    pub fn stack_size(&self, item_id: ItemId) -> (result: usize)
        requires
            self.wf(),
        ensures
            result == self.spec_stack_size(item_id),
            1 <= result <= 0xFFFF,
    {
        let n = self.entries.len();
        let mut i: usize = 0;
        while i < n
            invariant
                n == self.entries@.len(),
                i <= n,
                self.wf(),
                forall|k: int| 0 <= k < i ==> self.entries@[k].id != item_id,
            decreases n - i,
        {
            if self.entries[i].id == item_id {
                return self.entries[i].data.stack_size;
            }
            i += 1;
        }
        1
    }
}

} // verus!
