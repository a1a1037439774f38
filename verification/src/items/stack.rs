//! Stacks of identical items.
use vstd::prelude::*;
use crate::inventory::{slot_type_contains, SlotType};
use crate::items::item::Item;
use crate::items::list::ItemObject;

verus! {

/// A stack of identical items. `count` is one less than the number of
/// items, so a stack is never empty.
#[derive(Debug, Clone, Copy, PartialEq, Eq, Structural)]
pub struct ItemStack {
    pub item: ItemObject,
    pub count: u8,
}

impl ItemStack {
    /// How many items the stack holds.
    pub fn actual_count(&self) -> (n: u16)
        ensures
            n == self.count + 1,
    {
        self.count as u16 + 1
    }

    /// A stack of a single `item`.
    pub fn new_one(item: ItemObject) -> (s: Self)
        ensures
            s.item == item,
            s.count == 0,
    {
        ItemStack { count: 0, item }
    }

    /// Takes `actual_count` off `count` when it holds that many; the result
    /// says whether it did. The stack is unchanged otherwise.
    pub fn try_remove(&mut self, actual_count: u8) -> (removed: bool)
        ensures
            removed == (old(self).count >= actual_count),
            final(self).item == old(self).item,
            removed ==> final(self).count == old(self).count - actual_count,
            !removed ==> final(self).count == old(self).count,
    {
        let can_remove = self.count >= actual_count;
        if can_remove {
            self.count = self.count - actual_count;
        }
        can_remove
    }

    /// Whether the stack may go in every section of `slot_type`.
    pub fn can_put_in_slot_type(&self, slot_type: SlotType) -> (r: bool)
        ensures
            r == slot_type_contains(self.item.item_slots(), slot_type),
    {
        self.item.can_put_in().contains(slot_type)
    }
}

} // verus!
