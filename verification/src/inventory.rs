//! The player inventory: an ordered sequence of slots and a selection cursor.
//!
//! Slots stack payload-blind: a drill facing up stacks with a drill facing
//! down. Adding a resource first tops up the first slot already holding that
//! kind, then falls back to the first empty slot, and fails only when neither
//! exists. Deduction takes from matching slots front to back, emptying each
//! slot it drains.

use vstd::prelude::*;

use crate::blocks::BlockType;

verus! {

/// One inventory slot: what it holds and how many.
#[derive(Clone, Copy, Debug)]
pub struct InventorySlot {
    pub resource_type: Option<BlockType>,
    pub quantity: u32,
}

/// Does `slot` hold resources of `r`'s kind?
pub open spec fn slot_matches(slot: InventorySlot, r: BlockType) -> bool {
    slot.resource_type matches Some(rt) && rt.kind_spec() == r.kind_spec()
}

/// The first slot at or after `j` holding `r`'s kind, or -1.
pub open spec fn first_match_from(slots: Seq<InventorySlot>, r: BlockType, j: int) -> int
    decreases slots.len() - j,
{
    if j < 0 || j >= slots.len() {
        -1
    } else if slot_matches(slots[j], r) {
        j
    } else {
        first_match_from(slots, r, j + 1)
    }
}

/// The first empty slot at or after `j`, or -1.
pub open spec fn first_empty_from(slots: Seq<InventorySlot>, j: int) -> int
    decreases slots.len() - j,
{
    if j < 0 || j >= slots.len() {
        -1
    } else if slots[j].resource_type is None {
        j
    } else {
        first_empty_from(slots, j + 1)
    }
}

/// How many resources of `r`'s kind the slots at or after `j` hold.
pub open spec fn total_from(slots: Seq<InventorySlot>, r: BlockType, j: int) -> int
    decreases slots.len() - j,
{
    if j < 0 || j >= slots.len() {
        0
    } else {
        (if slot_matches(slots[j], r) {
            slots[j].quantity as int
        } else {
            0
        }) + total_from(slots, r, j + 1)
    }
}

/// The slots after deducting `amount` of `r`'s kind, walking from `j`: a slot
/// holding enough covers the rest and is emptied if drained exactly; a slot
/// holding less is drained and the walk continues. Too little in total leaves
/// the deficit untaken.
pub open spec fn deduct_from(
    slots: Seq<InventorySlot>,
    r: BlockType,
    amount: int,
    j: int,
) -> Seq<InventorySlot>
    decreases slots.len() - j,
{
    if j < 0 || j >= slots.len() {
        slots
    } else if !slot_matches(slots[j], r) {
        deduct_from(slots, r, amount, j + 1)
    } else if slots[j].quantity >= amount {
        let q = slots[j].quantity - amount;
        slots.update(
            j,
            InventorySlot {
                resource_type: if q == 0 {
                    None
                } else {
                    slots[j].resource_type
                },
                quantity: q as u32,
            },
        )
    } else {
        deduct_from(
            slots.update(j, InventorySlot { resource_type: None, quantity: 0 }),
            r,
            amount - slots[j].quantity,
            j + 1,
        )
    }
}

/// Each requirement is covered by the slots' current totals, each measured on
/// the undeducted slots.
pub open spec fn has_all(slots: Seq<InventorySlot>, reqs: Seq<(BlockType, u32)>) -> bool {
    forall|i: int|
        0 <= i < reqs.len() ==> total_from(slots, (#[trigger] reqs[i]).0, 0) >= reqs[i].1
}

/// The slots after the requirements at or after `i` are deducted in order.
pub open spec fn deduct_all_from(
    slots: Seq<InventorySlot>,
    reqs: Seq<(BlockType, u32)>,
    i: int,
) -> Seq<InventorySlot>
    decreases reqs.len() - i,
{
    if i < 0 || i >= reqs.len() {
        slots
    } else {
        deduct_all_from(deduct_from(slots, reqs[i].0, reqs[i].1 as int, 0), reqs, i + 1)
    }
}

/// The player inventory. Fields are public so a host's UI can render them
/// directly.
#[derive(Clone, Debug)]
pub struct Inventory {
    pub slots: Vec<InventorySlot>,
    pub selected_slot: usize,
    pub selected_row: usize,
}

impl Inventory {
    /// An empty inventory of `size` slots.
    pub fn new(size: usize) -> (inv: Inventory)
        ensures
            inv.slots@.len() == size,
            forall|i: int|
                0 <= i < size ==> #[trigger] inv.slots@[i] == (InventorySlot {
                    resource_type: None::<BlockType>,
                    quantity: 0u32,
                }),
            inv.selected_slot == 0,
            inv.selected_row == 0,
    {
        let mut slots: Vec<InventorySlot> = Vec::new();
        let mut i: usize = 0;
        while i < size
            invariant
                i <= size,
                slots@.len() == i,
                forall|j: int|
                    0 <= j < i ==> #[trigger] slots@[j] == (InventorySlot {
                        resource_type: None::<BlockType>,
                        quantity: 0u32,
                    }),
            decreases size - i,
        {
            slots.push(InventorySlot { resource_type: None, quantity: 0 });
            i = i + 1;
        }
        Inventory { slots, selected_slot: 0, selected_row: 0 }
    }

    /// Empty every slot and reset the cursor.
    pub fn clear(&mut self)
        ensures
            final(self).slots@.len() == old(self).slots@.len(),
            forall|i: int|
                0 <= i < final(self).slots@.len() ==> #[trigger] final(self).slots@[i]
                    == (InventorySlot { resource_type: None::<BlockType>, quantity: 0u32 }),
            final(self).selected_slot == 0,
            final(self).selected_row == 0,
    {
        self.selected_row = 0;
        self.selected_slot = 0;
        let n = self.slots.len();
        let mut i: usize = 0;
        while i < n
            invariant
                i <= n,
                n == self.slots@.len(),
                self.selected_slot == 0,
                self.selected_row == 0,
                forall|j: int|
                    0 <= j < i ==> #[trigger] self.slots@[j] == (InventorySlot {
                        resource_type: None::<BlockType>,
                        quantity: 0u32,
                    }),
            decreases n - i,
        {
            self.slots[i] = InventorySlot { resource_type: None, quantity: 0 };
            i = i + 1;
        }
    }

    /// Add `quantity` of a resource: top up the first slot of the same kind,
    /// else fill the first empty slot; false (and no change) when the
    /// inventory is full.
    pub fn add_resource(&mut self, resource_type: BlockType, quantity: u32) -> (added: bool)
        requires
            ({
                let m = first_match_from(old(self).slots@, resource_type, 0);
                m >= 0 ==> old(self).slots@[m].quantity + quantity <= u32::MAX
            }),
        ensures
            final(self).selected_slot == old(self).selected_slot,
            final(self).selected_row == old(self).selected_row,
            ({
                let m = first_match_from(old(self).slots@, resource_type, 0);
                let e = first_empty_from(old(self).slots@, 0);
                if m >= 0 {
                    &&& added
                    &&& final(self).slots@ == old(self).slots@.update(
                        m,
                        InventorySlot {
                            resource_type: old(self).slots@[m].resource_type,
                            quantity: (old(self).slots@[m].quantity + quantity) as u32,
                        },
                    )
                } else if e >= 0 {
                    &&& added
                    &&& final(self).slots@ == old(self).slots@.update(
                        e,
                        InventorySlot { resource_type: Some(resource_type), quantity },
                    )
                } else {
                    &&& !added
                    &&& final(self).slots@ == old(self).slots@
                }
            }),
    {
        let n = self.slots.len();
        let mut i: usize = 0;
        while i < n
            invariant
                n == self.slots@.len(),
                i <= n,
                *self == *old(self),
                ({
                    let m = first_match_from(old(self).slots@, resource_type, 0);
                    m >= 0 ==> old(self).slots@[m].quantity + quantity <= u32::MAX
                }),
                first_match_from(self.slots@, resource_type, 0) == first_match_from(
                    self.slots@,
                    resource_type,
                    i as int,
                ),
            decreases n - i,
        {
            let matched = match &self.slots[i].resource_type {
                Some(rt) => rt.kind() == resource_type.kind(),
                None => false,
            };
            if matched {
                proof {
                    assert(first_match_from(self.slots@, resource_type, i as int) == i as int);
                }
                let q = self.slots[i].quantity;
                self.slots[i] = InventorySlot {
                    resource_type: self.slots[i].resource_type,
                    quantity: q + quantity,
                };
                return true;
            }
            i = i + 1;
        }
        let mut i: usize = 0;
        while i < n
            invariant
                n == self.slots@.len(),
                i <= n,
                *self == *old(self),
                first_match_from(self.slots@, resource_type, 0) < 0,
                first_empty_from(self.slots@, 0) == first_empty_from(self.slots@, i as int),
            decreases n - i,
        {
            if self.slots[i].resource_type.is_none() {
                self.slots[i] = InventorySlot { resource_type: Some(resource_type), quantity };
                return true;
            }
            i = i + 1;
        }
        false
    }

    /// How many resources of this kind the whole inventory holds.
    pub fn get_total_resource(&self, resource_type: BlockType) -> (total: u32)
        requires
            total_from(self.slots@, resource_type, 0) <= u32::MAX,
        ensures
            total == total_from(self.slots@, resource_type, 0),
    {
        let n = self.slots.len();
        let mut sum: u32 = 0;
        let mut i: usize = 0;
        proof {
            lemma_total_from_nonneg(self.slots@, resource_type, 0);
        }
        while i < n
            invariant
                n == self.slots@.len(),
                i <= n,
                sum + total_from(self.slots@, resource_type, i as int) == total_from(
                    self.slots@,
                    resource_type,
                    0,
                ),
                total_from(self.slots@, resource_type, 0) <= u32::MAX,
                total_from(self.slots@, resource_type, i as int) >= 0,
            decreases n - i,
        {
            proof {
                lemma_total_from_nonneg(self.slots@, resource_type, i as int + 1);
            }
            let matched = match &self.slots[i].resource_type {
                Some(rt) => rt.kind() == resource_type.kind(),
                None => false,
            };
            if matched {
                sum = sum + self.slots[i].quantity;
            }
            i = i + 1;
        }
        sum
    }

    /// Check that every requirement is covered; if so deduct them all (in
    /// order, front slots first) and report true, else change nothing and
    /// report false.
    pub fn check_and_deduct_resources(&mut self, requirements: &[(BlockType, u32)]) -> (ok: bool)
        requires
            forall|i: int|
                0 <= i < requirements@.len() ==> total_from(
                    old(self).slots@,
                    (#[trigger] requirements@[i]).0,
                    0,
                ) <= u32::MAX,
        ensures
            ok == has_all(old(self).slots@, requirements@),
            final(self).selected_slot == old(self).selected_slot,
            final(self).selected_row == old(self).selected_row,
            ok ==> final(self).slots@ == deduct_all_from(old(self).slots@, requirements@, 0),
            !ok ==> final(self).slots@ == old(self).slots@,
    {
        let n_reqs = requirements.len();
        let mut i: usize = 0;
        while i < n_reqs
            invariant
                n_reqs == requirements@.len(),
                i <= n_reqs,
                *self == *old(self),
                forall|j: int|
                    0 <= j < n_reqs ==> total_from(
                        self.slots@,
                        (#[trigger] requirements@[j]).0,
                        0,
                    ) <= u32::MAX,
                forall|j: int|
                    0 <= j < i ==> total_from(self.slots@, (#[trigger] requirements@[j]).0, 0)
                        >= requirements@[j].1,
            decreases n_reqs - i,
        {
            let (resource_type, required_amount) = requirements[i];
            proof {
                lemma_total_from_nonneg(self.slots@, resource_type, 0);
            }
            if self.get_total_resource(resource_type) < required_amount {
                proof {
                    assert(!has_all(self.slots@, requirements@));
                }
                return false;
            }
            i = i + 1;
        }
        let ghost slots0 = self.slots@;
        let mut i: usize = 0;
        while i < n_reqs
            invariant
                n_reqs == requirements@.len(),
                i <= n_reqs,
                self.selected_slot == old(self).selected_slot,
                self.selected_row == old(self).selected_row,
                deduct_all_from(slots0, requirements@, 0) == deduct_all_from(
                    self.slots@,
                    requirements@,
                    i as int,
                ),
            decreases n_reqs - i,
        {
            let (resource_type, required_amount) = requirements[i];
            self.deduct_one(resource_type, required_amount);
            i = i + 1;
        }
        proof {
            assert(has_all(slots0, requirements@));
        }
        true
    }

    /// Deduct `amount` of one kind, front slots first.
    fn deduct_one(&mut self, resource_type: BlockType, amount: u32)
        ensures
            final(self).slots@ == deduct_from(old(self).slots@, resource_type, amount as int, 0),
            final(self).selected_slot == old(self).selected_slot,
            final(self).selected_row == old(self).selected_row,
    {
        let n = self.slots.len();
        let mut remaining: u32 = amount;
        let mut i: usize = 0;
        while i < n
            invariant
                n == self.slots@.len(),
                i <= n,
                self.selected_slot == old(self).selected_slot,
                self.selected_row == old(self).selected_row,
                deduct_from(old(self).slots@, resource_type, amount as int, 0) == deduct_from(
                    self.slots@,
                    resource_type,
                    remaining as int,
                    i as int,
                ),
            decreases n - i,
        {
            let matched = match &self.slots[i].resource_type {
                Some(rt) => rt.kind() == resource_type.kind(),
                None => false,
            };
            if matched {
                let q = self.slots[i].quantity;
                if q >= remaining {
                    let left = q - remaining;
                    self.slots[i] = InventorySlot {
                        resource_type: if left == 0 {
                            None
                        } else {
                            self.slots[i].resource_type
                        },
                        quantity: left,
                    };
                    return ;
                } else {
                    self.slots[i] = InventorySlot { resource_type: None, quantity: 0 };
                    remaining = remaining - q;
                }
            }
            i = i + 1;
        }
    }

    /// Move the cursor to a hotbar column of the selected row; columns past
    /// the hotbar are ignored.
    pub fn select_slot(&mut self, slot_index: usize)
        requires
            old(self).selected_row <= 5,
        ensures
            final(self).slots@ == old(self).slots@,
            final(self).selected_row == old(self).selected_row,
            slot_index < 10 ==> final(self).selected_slot == slot_index + 10 * old(
                self,
            ).selected_row,
            slot_index >= 10 ==> final(self).selected_slot == old(self).selected_slot,
    {
        if slot_index < 10 {
            self.selected_slot = slot_index + 10 * self.selected_row;
        }
    }

    /// Jump straight to a row: the cursor moves to its first column.
    pub fn select_row(&mut self, row: usize)
        requires
            row <= 5,
        ensures
            final(self).slots@ == old(self).slots@,
            final(self).selected_row == row,
            final(self).selected_slot == 10 * row,
    {
        self.selected_row = row;
        self.selected_slot = 10 * row;
    }

    /// Move the toolbar one row up, wrapping around the six rows; the cursor
    /// moves to the row's first column.
    pub fn next_row(&mut self)
        requires
            old(self).selected_row <= 5,
        ensures
            final(self).slots@ == old(self).slots@,
            final(self).selected_row == (old(self).selected_row + 5) % 6,
            final(self).selected_slot == 10 * final(self).selected_row,
    {
        self.selected_row = (self.selected_row + 5) % 6;
        self.selected_slot = self.selected_row * 10;
    }

    /// Move the toolbar one row down, wrapping around the six rows; the
    /// cursor moves to the row's first column.
    pub fn prev_row(&mut self)
        requires
            old(self).selected_row <= 5,
        ensures
            final(self).slots@ == old(self).slots@,
            final(self).selected_row == (old(self).selected_row + 1) % 6,
            final(self).selected_slot == 10 * final(self).selected_row,
    {
        self.selected_row = (self.selected_row + 1) % 6;
        self.selected_slot = self.selected_row * 10;
    }

    /// The block type under the cursor, if the selected slot holds one.
    pub fn get_selected_block(&self) -> (r: Option<BlockType>)
        requires
            self.selected_slot < self.slots@.len(),
        ensures
            r == self.slots@[self.selected_slot as int].resource_type,
    {
        self.slots[self.selected_slot].resource_type
    }
}

/// Totals are never negative.
pub proof fn lemma_total_from_nonneg(slots: Seq<InventorySlot>, r: BlockType, j: int)
    ensures
        total_from(slots, r, j) >= 0,
    decreases slots.len() - j,
{
    if 0 <= j < slots.len() {
        lemma_total_from_nonneg(slots, r, j + 1);
    }
}

} // verus!
