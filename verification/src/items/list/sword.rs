use vstd::prelude::*;
use crate::inventory::{default_slot_type, SlotType};
use crate::items::item::{Item, ItemName, StackSize};
use crate::items::tool::{Tool, ToolType};

verus! {

/// A sword: a tool that does not stack.
#[derive(Debug, Clone, Copy, PartialEq, Eq, Structural)]
pub struct Sword;

impl Item for Sword {
    open spec fn item_name(&self) -> Seq<char> {
        "sword"@
    }

    open spec fn item_stack_size(&self) -> StackSize {
        0
    }

    open spec fn item_slots(&self) -> SlotType {
        default_slot_type()
    }

    open spec fn item_consumed_on_use(&self) -> bool {
        false
    }

    fn name(&self) -> (n: ItemName) {
        ItemName(crate::text::owned("sword"))
    }

    fn stack_size(&self) -> (s: StackSize) {
        StackSize::MIN
    }

    fn can_put_in(&self) -> (t: SlotType) {
        SlotType::default()
    }

    fn use_item(&self) -> (consumed: bool) {
        false
    }
}

impl Tool for Sword {
    open spec fn spec_tool_type(&self) -> ToolType {
        ToolType::Sword
    }

    fn tool_type(&self) -> (t: ToolType) {
        ToolType::Sword
    }
}

} // verus!
