use terradventure::items::item::{item_texture_path, Item, ItemName};
use terradventure::items::list::levitation_potion::LevitationPotion;
use terradventure::items::list::mana_potion::ManaPotion;
use terradventure::items::list::porkchop::Porkchop;
use terradventure::items::list::processed_ore::ProcessedOre;
use terradventure::items::list::sword::Sword;
use terradventure::items::list::unprocessed_ore::UnprocessedOre;
use terradventure::items::list::wool::Wool;
use terradventure::items::list::ItemObject;
use terradventure::items::tool::{Tool, ToolType};
use terradventure::ore::{Ore, OreType};
use terradventure::text::{decimal_string, join_path, parse_u16, split_on, text_eq};

#[test]
fn join_path_inserts_one_separator() {
    assert_eq!(join_path("textures/item", "wool.png"), "textures/item/wool.png");
    assert_eq!(join_path("textures/", "wool.png"), "textures/wool.png");
    assert_eq!(join_path("", "wool.png"), "wool.png");
    assert_eq!(join_path("textures", "/abs.png"), "/abs.png");
}

#[test]
fn split_on_keeps_empty_pieces() {
    assert_eq!(split_on("give Wool 3", ' '), vec!["give", "Wool", "3"]);
    assert_eq!(split_on("tp  1", ' '), vec!["tp", "", "1"]);
    assert_eq!(split_on("", ' '), vec![""]);
    assert_eq!(split_on("a ", ' '), vec!["a", ""]);
}

#[test]
fn parse_u16_reads_decimal_numbers() {
    assert_eq!(parse_u16("0"), Some(0));
    assert_eq!(parse_u16("12"), Some(12));
    assert_eq!(parse_u16("+7"), Some(7));
    assert_eq!(parse_u16("65535"), Some(65535));
    assert_eq!(parse_u16("0065535"), Some(65535));
    assert_eq!(parse_u16("65536"), None);
    assert_eq!(parse_u16("99999999999"), None);
    assert_eq!(parse_u16(""), None);
    assert_eq!(parse_u16("+"), None);
    assert_eq!(parse_u16("-1"), None);
    assert_eq!(parse_u16("1a"), None);
    assert_eq!(parse_u16(" 1"), None);
}

#[test]
fn parse_u16_agrees_with_std_on_samples() {
    for s in ["0", "1", "+1", "255", "256", "65535", "65536", "", "+", "++1", "x", "12 ", "007"] {
        assert_eq!(parse_u16(s), s.parse::<u16>().ok(), "{}", s);
    }
}

#[test]
fn text_eq_compares_characters() {
    assert!(text_eq("Ruby", "Ruby"));
    assert!(!text_eq("Ruby", "ruby"));
    assert!(!text_eq("Ruby", "Rub"));
    assert!(text_eq("", ""));
}

#[test]
fn ore_types_and_names() {
    assert!(Ore::Copper.ore_type() == OreType::Ingot);
    assert!(Ore::Gold.ore_type() == OreType::Ingot);
    assert!(Ore::Silver.ore_type() == OreType::Ingot);
    assert!(Ore::Amethyst.ore_type() == OreType::Gem);
    assert!(Ore::WitheDiamond.ore_type() == OreType::Gem);
    assert_eq!(Ore::WitheDiamond.name(), "WitheDiamond");
    assert_eq!(Ore::Ruby.get_texture(), "textures/ores/Ruby.png");
    assert!(Ore::from_name("Emerald") == Some(Ore::Emerald));
    assert!(Ore::from_name("emerald").is_none());
    assert!(Ore::default() == Ore::Silver);
}

#[test]
fn ore_item_names_add_the_kind() {
    assert_eq!(ProcessedOre(Ore::Copper).name().get(), "CopperIngot");
    assert_eq!(ProcessedOre(Ore::Ruby).name().get(), "Ruby");
    assert_eq!(UnprocessedOre(Ore::Ruby).name().get(), "RubyGem");
    assert_eq!(UnprocessedOre(Ore::Gold).name().get(), "Gold");
    assert!(ProcessedOre(Ore::Ruby).can_put_in() == terradventure::inventory::SlotType::ressources());
}

#[test]
fn item_properties() {
    assert_eq!(Wool.name().get(), "Wool");
    assert_eq!(Wool.texture(), "textures/item/Wool.png");
    assert_eq!(Wool.stack_size(), 255);
    assert!(!Wool.use_item());
    assert!(ManaPotion.use_item());
    assert!(Porkchop.use_item());
    assert!(LevitationPotion { duration: 1, level: 2 }.use_item());
    assert_eq!(Sword.name().get(), "sword");
    assert_eq!(Sword.stack_size(), 0);
    assert!(Sword.tool_type() == ToolType::Sword);
    assert_eq!(item_texture_path(&ItemName("sword".to_string())), "textures/item/sword.png");
}

#[test]
fn item_objects_by_name() {
    assert!(ItemObject::from_name("Wool") == Some(ItemObject::Wool(Wool)));
    assert!(ItemObject::from_name("ManaPotion") == Some(ItemObject::ManaPotion(ManaPotion)));
    assert!(ItemObject::from_name("ProcessedOre") == Some(ItemObject::ProcessedOre(ProcessedOre(Ore::Silver))));
    assert!(ItemObject::from_name("Stone").is_none());
    assert_eq!(ItemObject::ManaPotion(ManaPotion).texture(), "textures/item/ManaPotion.png");
}

#[test]
fn decimal_string_writes_digits() {
    assert_eq!(decimal_string(0), "0");
    assert_eq!(decimal_string(7), "7");
    assert_eq!(decimal_string(10), "10");
    assert_eq!(decimal_string(256), "256");
    assert_eq!(decimal_string(u64::MAX), "18446744073709551615");
}

#[test]
fn decimal_string_reads_back() {
    for n in [0u16, 1, 9, 10, 99, 100, 255, 256, 1000, 65535] {
        assert_eq!(parse_u16(&decimal_string(n as u64)), Some(n));
    }
}
