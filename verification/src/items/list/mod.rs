//! Every item of the game.
use vstd::prelude::*;
use crate::inventory::SlotType;
use crate::items::item::{Item, ItemName, StackSize};
use crate::ore::{ore_name, Ore};
use crate::text::text_eq;

pub mod levitation_potion;
pub mod mana_potion;
pub mod porkchop;
pub mod processed_ore;
pub mod sword;
pub mod unprocessed_ore;
pub mod wool;

use self::wool::Wool;
use self::mana_potion::ManaPotion;
use self::porkchop::Porkchop;
use self::levitation_potion::LevitationPotion;
use self::processed_ore::ProcessedOre;
use self::unprocessed_ore::UnprocessedOre;

verus! {

/// The items a stack can hold.
#[derive(Debug, Clone, Copy, PartialEq, Eq, Structural)]
pub enum ItemObject {
    Wool(Wool),
    ManaPotion(ManaPotion),
    Porkchop(Porkchop),
    LevitationPotion(LevitationPotion),
    ProcessedOre(ProcessedOre),
    UnprocessedOre(UnprocessedOre),
}

/// The item whose kind is named `s` (the variant name), with default
/// contents, if any.
pub open spec fn item_object_from_name(s: Seq<char>) -> Option<ItemObject> {
    if s == "Wool"@ {
        Some(ItemObject::Wool(Wool))
    } else if s == "ManaPotion"@ {
        Some(ItemObject::ManaPotion(ManaPotion))
    } else if s == "Porkchop"@ {
        Some(ItemObject::Porkchop(Porkchop))
    } else if s == "LevitationPotion"@ {
        Some(ItemObject::LevitationPotion(LevitationPotion { duration: 0, level: 0 }))
    } else if s == "ProcessedOre"@ {
        Some(ItemObject::ProcessedOre(ProcessedOre(Ore::Silver)))
    } else if s == "UnprocessedOre"@ {
        Some(ItemObject::UnprocessedOre(UnprocessedOre(Ore::Silver)))
    } else {
        None
    }
}

impl ItemObject {
    /// The item whose kind is named exactly `s`, with default contents.
    pub fn from_name(s: &str) -> (o: Option<ItemObject>)
        ensures
            o == item_object_from_name(s@),
    {
        if text_eq(s, "Wool") {
            Some(ItemObject::Wool(Wool))
        } else if text_eq(s, "ManaPotion") {
            Some(ItemObject::ManaPotion(ManaPotion))
        } else if text_eq(s, "Porkchop") {
            Some(ItemObject::Porkchop(Porkchop))
        } else if text_eq(s, "LevitationPotion") {
            Some(ItemObject::LevitationPotion(LevitationPotion { duration: 0, level: 0 }))
        } else if text_eq(s, "ProcessedOre") {
            Some(ItemObject::ProcessedOre(ProcessedOre(Ore::Silver)))
        } else if text_eq(s, "UnprocessedOre") {
            Some(ItemObject::UnprocessedOre(UnprocessedOre(Ore::Silver)))
        } else {
            None
        }
    }
}

impl Item for ItemObject {
    open spec fn item_name(&self) -> Seq<char> {
        match self {
            ItemObject::Wool(i) => i.item_name(),
            ItemObject::ManaPotion(i) => i.item_name(),
            ItemObject::Porkchop(i) => i.item_name(),
            ItemObject::LevitationPotion(i) => i.item_name(),
            ItemObject::ProcessedOre(i) => i.item_name(),
            ItemObject::UnprocessedOre(i) => i.item_name(),
        }
    }

    open spec fn item_stack_size(&self) -> StackSize {
        match self {
            ItemObject::Wool(i) => i.item_stack_size(),
            ItemObject::ManaPotion(i) => i.item_stack_size(),
            ItemObject::Porkchop(i) => i.item_stack_size(),
            ItemObject::LevitationPotion(i) => i.item_stack_size(),
            ItemObject::ProcessedOre(i) => i.item_stack_size(),
            ItemObject::UnprocessedOre(i) => i.item_stack_size(),
        }
    }

    open spec fn item_slots(&self) -> SlotType {
        match self {
            ItemObject::Wool(i) => i.item_slots(),
            ItemObject::ManaPotion(i) => i.item_slots(),
            ItemObject::Porkchop(i) => i.item_slots(),
            ItemObject::LevitationPotion(i) => i.item_slots(),
            ItemObject::ProcessedOre(i) => i.item_slots(),
            ItemObject::UnprocessedOre(i) => i.item_slots(),
        }
    }

    open spec fn item_consumed_on_use(&self) -> bool {
        match self {
            ItemObject::Wool(i) => i.item_consumed_on_use(),
            ItemObject::ManaPotion(i) => i.item_consumed_on_use(),
            ItemObject::Porkchop(i) => i.item_consumed_on_use(),
            ItemObject::LevitationPotion(i) => i.item_consumed_on_use(),
            ItemObject::ProcessedOre(i) => i.item_consumed_on_use(),
            ItemObject::UnprocessedOre(i) => i.item_consumed_on_use(),
        }
    }

    fn name(&self) -> (n: ItemName) {
        match self {
            ItemObject::Wool(i) => i.name(),
            ItemObject::ManaPotion(i) => i.name(),
            ItemObject::Porkchop(i) => i.name(),
            ItemObject::LevitationPotion(i) => i.name(),
            ItemObject::ProcessedOre(i) => i.name(),
            ItemObject::UnprocessedOre(i) => i.name(),
        }
    }

    fn stack_size(&self) -> (s: StackSize) {
        match self {
            ItemObject::Wool(i) => i.stack_size(),
            ItemObject::ManaPotion(i) => i.stack_size(),
            ItemObject::Porkchop(i) => i.stack_size(),
            ItemObject::LevitationPotion(i) => i.stack_size(),
            ItemObject::ProcessedOre(i) => i.stack_size(),
            ItemObject::UnprocessedOre(i) => i.stack_size(),
        }
    }

    fn can_put_in(&self) -> (t: SlotType) {
        match self {
            ItemObject::Wool(i) => i.can_put_in(),
            ItemObject::ManaPotion(i) => i.can_put_in(),
            ItemObject::Porkchop(i) => i.can_put_in(),
            ItemObject::LevitationPotion(i) => i.can_put_in(),
            ItemObject::ProcessedOre(i) => i.can_put_in(),
            ItemObject::UnprocessedOre(i) => i.can_put_in(),
        }
    }

    fn use_item(&self) -> (consumed: bool) {
        match self {
            ItemObject::Wool(i) => i.use_item(),
            ItemObject::ManaPotion(i) => i.use_item(),
            ItemObject::Porkchop(i) => i.use_item(),
            ItemObject::LevitationPotion(i) => i.use_item(),
            ItemObject::ProcessedOre(i) => i.use_item(),
            ItemObject::UnprocessedOre(i) => i.use_item(),
        }
    }
}

/// The names of ore items: a smelted copper, gold or silver ore is the
/// ore's name followed by `Ingot`, any other smelted ore is the ore's name
/// alone; a raw ore is the ore's name followed by `Gem` for every ore but
/// copper, gold and silver, whose raw name is the ore's name alone.
pub proof fn lemma_ore_item_names(ore: Ore)
    ensures
        (ore == Ore::Copper || ore == Ore::Gold || ore == Ore::Silver) ==> {
            &&& ProcessedOre(ore).item_name() == ore_name(ore) + "Ingot"@
            &&& UnprocessedOre(ore).item_name() == ore_name(ore)
        },
        !(ore == Ore::Copper || ore == Ore::Gold || ore == Ore::Silver) ==> {
            &&& ProcessedOre(ore).item_name() == ore_name(ore)
            &&& UnprocessedOre(ore).item_name() == ore_name(ore) + "Gem"@
        },
{
}

} // verus!
