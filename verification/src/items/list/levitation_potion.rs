use vstd::prelude::*;
use crate::inventory::{default_slot_type, SlotType};
use crate::items::item::{Item, ItemName, StackSize};

verus! {

/// A potion that makes its drinker levitate for a while.
#[derive(Debug, Clone, Copy, PartialEq, Eq, Structural, Default)]
pub struct LevitationPotion {
    /// How long the levitation lasts, in nanoseconds.
    pub duration: u64,
    pub level: u8,
}

impl Item for LevitationPotion {
    open spec fn item_name(&self) -> Seq<char> {
        "LevitationPotion"@
    }

    open spec fn item_stack_size(&self) -> StackSize {
        255
    }

    open spec fn item_slots(&self) -> SlotType {
        default_slot_type()
    }

    open spec fn item_consumed_on_use(&self) -> bool {
        true
    }

    fn name(&self) -> (n: ItemName) {
        ItemName(crate::text::owned("LevitationPotion"))
    }

    fn stack_size(&self) -> (s: StackSize) {
        255
    }

    fn can_put_in(&self) -> (t: SlotType) {
        SlotType::default()
    }

    fn use_item(&self) -> (consumed: bool) {
        true
    }
}

} // verus!
