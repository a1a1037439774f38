//! The player's inventory: its slots and the kinds of slot an item may go in.
use vstd::prelude::*;
use crate::items::stack::ItemStack;

verus! {

/// A set of inventory sections, one flag per section of `Inventory`.
#[derive(Debug, Clone, Copy, PartialEq, Eq, Structural)]
pub struct SlotType {
    pub ressources: bool,
    pub armor: bool,
    pub pockets: bool,
    pub back: bool,
    pub accessories: bool,
}

/// Every section of `b` is also a section of `a`.
pub open spec fn slot_type_contains(a: SlotType, b: SlotType) -> bool {
    &&& b.ressources ==> a.ressources
    &&& b.armor ==> a.armor
    &&& b.pockets ==> a.pockets
    &&& b.back ==> a.back
    &&& b.accessories ==> a.accessories
}

/// The sections an item may go in unless it says otherwise: the resource
/// slots and the pockets.
pub open spec fn default_slot_type() -> SlotType {
    SlotType { ressources: true, armor: false, pockets: true, back: false, accessories: false }
}

impl SlotType {
    /// Only the resource slots.
    pub fn ressources() -> (t: SlotType)
        ensures
            t == (SlotType {
                ressources: true,
                armor: false,
                pockets: false,
                back: false,
                accessories: false,
            }),
    {
        SlotType { ressources: true, armor: false, pockets: false, back: false, accessories: false }
    }

    /// Whether every section of `other` is a section of `self`.
    pub fn contains(&self, other: SlotType) -> (r: bool)
        ensures
            r == slot_type_contains(*self, other),
    {
        (!other.ressources || self.ressources) && (!other.armor || self.armor) && (!other.pockets
            || self.pockets) && (!other.back || self.back) && (!other.accessories
            || self.accessories)
    }
}

impl Default for SlotType {
    fn default() -> (t: SlotType)
        ensures
            t == default_slot_type(),
    {
        SlotType { ressources: true, armor: false, pockets: true, back: false, accessories: false }
    }
}

/// One inventory slot, empty or holding a stack.
pub struct Slot {
    pub item: Option<ItemStack>,
}

impl Default for Slot {
    fn default() -> (s: Slot)
        ensures
            s.item is None,
    {
        Slot { item: None }
    }
}

/// The player's inventory, in sections of fixed sizes.
pub struct Inventory {
    pub resources: Vec<Slot>,
    pub armor: Vec<Slot>,
    pub pockets: Vec<Slot>,
    pub back: Vec<Slot>,
    pub accessories: Vec<Slot>,
}

/// A section of `n` slots, all empty.
pub open spec fn empty_section(s: Seq<Slot>, n: nat) -> bool {
    s.len() == n && forall|i: int| 0 <= i < n ==> (#[trigger] s[i]).item is None
}

fn empty_slots(n: usize) -> (v: Vec<Slot>)
    ensures
        empty_section(v@, n as nat),
{
    let mut v: Vec<Slot> = Vec::new();
    let mut i: usize = 0;
    while i < n
        invariant
            i <= n,
            empty_section(v@, i as nat),
        decreases n - i,
    {
        v.push(Slot { item: None });
        i = i + 1;
    }
    v
}

impl Inventory {
    /// Whether each section has its size: 27 resource slots, 4 armor slots,
    /// 2 pockets, 2 back slots and 4 accessory slots.
    pub open spec fn well_formed(&self) -> bool {
        &&& self.resources@.len() == 27
        &&& self.armor@.len() == 4
        &&& self.pockets@.len() == 2
        &&& self.back@.len() == 2
        &&& self.accessories@.len() == 4
    }
}

impl Default for Inventory {
    /// An inventory with every slot empty.
    fn default() -> (inv: Inventory)
        ensures
            inv.well_formed(),
            empty_section(inv.resources@, 27),
            empty_section(inv.armor@, 4),
            empty_section(inv.pockets@, 2),
            empty_section(inv.back@, 2),
            empty_section(inv.accessories@, 4),
    {
        Inventory {
            resources: empty_slots(27),
            armor: empty_slots(4),
            pockets: empty_slots(2),
            back: empty_slots(2),
            accessories: empty_slots(4),
        }
    }
}

} // verus!
