use vstd::prelude::*;
use crate::inventory::{default_slot_type, SlotType};
use crate::items::item::{Item, ItemName, StackSize};

verus! {

/// Pork to eat; eating it uses it up.
#[derive(Debug, Clone, Copy, PartialEq, Eq, Structural, Default)]
pub struct Porkchop;

impl Item for Porkchop {
    open spec fn item_name(&self) -> Seq<char> {
        "Porkchop"@
    }

    open spec fn item_stack_size(&self) -> StackSize {
        255
    }

    open spec fn item_slots(&self) -> SlotType {
        default_slot_type()
    }

    open spec fn item_consumed_on_use(&self) -> bool {
        true
    }

    fn name(&self) -> (n: ItemName) {
        ItemName(crate::text::owned("Porkchop"))
    }

    fn stack_size(&self) -> (s: StackSize) {
        255
    }

    fn can_put_in(&self) -> (t: SlotType) {
        SlotType::default()
    }

    fn use_item(&self) -> (consumed: bool) {
        true
    }
}

} // verus!
