use terradventure::chest::Chest;
use terradventure::inventory::{Inventory, SlotType};
use terradventure::items::list::mana_potion::ManaPotion;
use terradventure::items::list::processed_ore::ProcessedOre;
use terradventure::items::list::wool::Wool;
use terradventure::items::list::ItemObject;
use terradventure::items::loot_table::LootTable as MoneyTable;
use terradventure::items::stack::ItemStack;
use terradventure::loot_table::{Loot, LootTable};
use terradventure::ore::Ore;

fn wool() -> ItemObject {
    ItemObject::Wool(Wool)
}

fn potion() -> ItemObject {
    ItemObject::ManaPotion(ManaPotion)
}

#[test]
fn stack_counts() {
    let s = ItemStack::new_one(wool());
    assert_eq!(s.count, 0);
    assert_eq!(s.actual_count(), 1);
    assert_eq!(ItemStack { item: wool(), count: 255 }.actual_count(), 256);
}

#[test]
fn try_remove_takes_only_what_is_there() {
    let mut s = ItemStack { item: wool(), count: 5 };
    assert!(s.try_remove(3));
    assert_eq!(s.count, 2);
    assert!(!s.try_remove(3));
    assert_eq!(s.count, 2);
    assert!(s.try_remove(2));
    assert_eq!(s.count, 0);
}

#[test]
fn slot_types() {
    let ore = ItemStack::new_one(ItemObject::ProcessedOre(ProcessedOre(Ore::Gold)));
    let pockets = SlotType { ressources: false, armor: false, pockets: true, back: false, accessories: false };
    assert!(ore.can_put_in_slot_type(SlotType::ressources()));
    assert!(!ore.can_put_in_slot_type(pockets));
    assert!(ItemStack::new_one(potion()).can_put_in_slot_type(pockets));
    assert!(!ItemStack::new_one(potion()).can_put_in_slot_type(SlotType { armor: true, ..pockets }));
}

#[test]
fn inventory_starts_empty() {
    let inv = Inventory::default();
    assert_eq!(inv.resources.len(), 27);
    assert_eq!(inv.armor.len(), 4);
    assert_eq!(inv.pockets.len(), 2);
    assert_eq!(inv.back.len(), 2);
    assert_eq!(inv.accessories.len(), 4);
    assert!(inv.resources.iter().all(|s| s.item.is_none()));
}

fn table() -> LootTable {
    LootTable::new(
        vec![
            Loot::new(ItemStack::new_one(wool()), 2),
            Loot::new(ItemStack::new_one(potion()), 0),
            Loot::new(ItemStack { item: potion(), count: 3 }, 3),
        ],
        2,
    )
}

#[test]
fn weighted_pick() {
    let t = table();
    assert_eq!(t.total_weight(), 5);
    assert_eq!(t.pick_index(0), Some(0));
    assert_eq!(t.pick_index(1), Some(0));
    assert_eq!(t.pick_index(2), Some(2));
    assert_eq!(t.pick_index(4), Some(2));
    assert_eq!(t.pick_index(5), None);
}

#[test]
fn rolls_on_given_draws() {
    let t = table();
    // draws times the total weight 5: 0 -> wool, 1 -> 5 (nothing).
    let got = t.loots_for_draws(&vec![0, 1]);
    assert_eq!(got.len(), 1);
    assert!(got[0] == ItemStack::new_one(wool()));
    // the product wraps: 858993460 * 5 = 2^32 + 4 -> 4 -> the third loot.
    let got = t.loots_for_draws(&vec![858993460]);
    assert_eq!(got.len(), 1);
    assert!(got[0] == ItemStack { item: potion(), count: 3 });
}

#[test]
fn random_rolls_stay_within_the_table() {
    let t = table();
    for _ in 0..50 {
        let got = t.get_random_loots();
        assert!(got.len() <= 2);
        for s in got {
            assert!(s == ItemStack::new_one(wool()) || s == ItemStack { item: potion(), count: 3 });
        }
    }
}

#[test]
fn money_is_drawn_from_the_range() {
    assert_eq!(MoneyTable::new(5..5, LootTable::new(vec![], 0)).get_random_money(), 0);
    for _ in 0..50 {
        let m = MoneyTable::new(10..13, LootTable::new(vec![], 0)).get_random_money();
        assert!((10..13).contains(&m));
    }
}

#[test]
fn chest_loot_holds_money_and_rolled_stacks() {
    let empty = MoneyTable::new(0..0, LootTable::new(vec![], 3));
    let (money, items) = empty.get_random();
    assert_eq!(money, 0);
    assert!(items.is_empty());
    let only_wool = MoneyTable::new(
        7..8,
        LootTable::new(vec![Loot::new(ItemStack::new_one(wool()), 1)], 4),
    );
    for _ in 0..20 {
        let (money, items) = only_wool.get_random();
        assert_eq!(money, 7);
        assert!(items.len() <= 4);
        assert!(items.iter().all(|s| *s == ItemStack::new_one(wool())));
    }
    let chest = Chest { loot_table: only_wool, chest_type: 0, name: "chest".to_string() };
    let (money, items) = chest.loot();
    assert_eq!(money, 7);
    assert!(items.len() <= 4);
}
