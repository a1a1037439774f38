//! What a chest holds: money and rolled item stacks.
use vstd::prelude::*;
use crate::items::stack::ItemStack;
use crate::loot_table::{rolled, LootTable as WeightedTable};
use crate::random::choose_in_range;

verus! {

/// The loot of a chest: any amount of money in `money.start..money.end`,
/// and the stacks rolled on the weighted table `items`.
pub struct LootTable {
    pub money: core::ops::Range<u64>,
    pub items: WeightedTable,
}

impl LootTable {
    pub fn new(money: core::ops::Range<u64>, items: WeightedTable) -> (t: LootTable)
        ensures
            t.money == money,
            t.items == items,
    {
        LootTable { money, items }
    }

    /// An amount of money drawn at random from the range; 0 when the range
    /// is empty.
    pub fn get_random_money(&self) -> (amount: u64)
        ensures
            self.money.start >= self.money.end ==> amount == 0,
            self.money.start < self.money.end ==> self.money.start <= amount < self.money.end,
    {
        match choose_in_range(self.money.start, self.money.end) {
            Some(x) => x,
            None => 0,
        }
    }

    /// The money earned and the stacks looted: money as `get_random_money`
    /// draws it, and the stacks of one roll of the item table (see
    /// `LootTable::get_random_loots`).
    pub fn get_random(&self) -> (r: (u64, Vec<ItemStack>))
        ensures
            self.money.start >= self.money.end ==> r.0 == 0,
            self.money.start < self.money.end ==> self.money.start <= r.0 < self.money.end,
            exists|draws: Seq<u32>|
                draws.len() == self.items.rolls && r.1@ == rolled(self.items.loots@, draws),
    {
        let money = self.get_random_money();
        let items = self.items.get_random_loots();
        (money, items)
    }
}

} // verus!
