//! Chests that open when the player activates them and drop their loot.
use vstd::prelude::*;
use crate::items::loot_table::LootTable;
use crate::items::stack::ItemStack;
use crate::loot_table::rolled;

verus! {

/// A chest and the loot it holds.
pub struct Chest {
    pub loot_table: LootTable,
    pub chest_type: i32,
    pub name: String,
}

/// Whether a chest's opening animation advances this frame: a chest at
/// rest (its animation not started) starts opening only when the player
/// activates it; once started it plays on.
pub fn chest_animation_advances(at_rest: bool, just_pressed: bool) -> (r: bool)
    ensures
        r == (!at_rest || just_pressed),
{
    if at_rest {
        just_pressed
    } else {
        true
    }
}

impl Chest {
    /// What the chest gives when it opens: money and item stacks (see
    /// `LootTable::get_random`).
    pub fn loot(&self) -> (r: (u64, Vec<ItemStack>))
        ensures
            self.loot_table.money.start >= self.loot_table.money.end ==> r.0 == 0,
            self.loot_table.money.start < self.loot_table.money.end ==> self.loot_table.money.start
                <= r.0 < self.loot_table.money.end,
            exists|draws: Seq<u32>|
                draws.len() == self.loot_table.items.rolls && r.1@ == rolled(
                    self.loot_table.items.loots@,
                    draws,
                ),
    {
        self.loot_table.get_random()
    }
}

} // verus!
