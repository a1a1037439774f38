//! Items that are tools.
use vstd::prelude::*;
use crate::items::item::Item;

verus! {

/// The kinds of tool.
#[derive(Debug, Clone, Copy, PartialEq, Eq, Structural)]
pub enum ToolType {
    Sword,
    Axe,
    Pickaxe,
}

/// An item that is a tool of some kind.
pub trait Tool: Item {
    /// The kind of tool it is.
    spec fn spec_tool_type(&self) -> ToolType;

    fn tool_type(&self) -> (t: ToolType)
        ensures
            t == self.spec_tool_type(),
    ;
}

} // verus!
