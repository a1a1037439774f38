use vstd::prelude::*;
use crate::inventory::SlotType;
use crate::items::item::{Item, ItemName, StackSize};
use crate::ore::{ore_name, spec_ore_type, Ore, OreType};

verus! {

/// An ore as it comes out of the rock.
#[derive(Debug, Clone, Copy, PartialEq, Eq, Structural)]
pub struct UnprocessedOre(pub Ore);

/// The name of the item made of `ore`: the ore's name, followed by
/// `Gem` when the ore is of the gem kind.
pub open spec fn unprocessed_ore_name(ore: Ore) -> Seq<char> {
    if spec_ore_type(ore) == OreType::Gem {
        ore_name(ore) + "Gem"@
    } else {
        ore_name(ore)
    }
}

impl Item for UnprocessedOre {
    open spec fn item_name(&self) -> Seq<char> {
        unprocessed_ore_name(self.0)
    }

    open spec fn item_stack_size(&self) -> StackSize {
        255
    }

    open spec fn item_slots(&self) -> SlotType {
        SlotType { ressources: true, armor: false, pockets: false, back: false, accessories: false }
    }

    open spec fn item_consumed_on_use(&self) -> bool {
        false
    }

    fn name(&self) -> (n: ItemName) {
        let mut ore_name = self.0.name();
        if self.0.ore_type() == OreType::Gem {
            ore_name.append("Gem");
        }
        ItemName(ore_name)
    }

    fn stack_size(&self) -> (s: StackSize) {
        255
    }

    fn can_put_in(&self) -> (t: SlotType) {
        SlotType::ressources()
    }

    fn use_item(&self) -> (consumed: bool) {
        false
    }
}

impl Default for UnprocessedOre {
    /// Made of the default ore.
    fn default() -> (o: UnprocessedOre)
        ensures
            o.0 == Ore::Silver,
    {
        UnprocessedOre(Ore::Silver)
    }
}

} // verus!
