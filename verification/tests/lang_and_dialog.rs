use terradventure::lang::{flatten_json, JsonValue, Lang, LangIdentifier};
use terradventure::npc::dialog::{
    apply_choice, in_dialog, next_line, ChoiceOutcome, CurrentDialog, Dialog, DialogChoice,
    DialogChoiceAction, DialogLine, DialogResource,
};
use terradventure::gui::main_menu::load_world::world_entry_text;
use terradventure::gui::settings::keybinds::{keybind_rows, KeybindField};
use terradventure::gui::settings::lang::lang_choices;
use terradventure::items::list::wool::Wool;
use terradventure::items::list::ItemObject;
use terradventure::items::stack::ItemStack;
use terradventure::npc::shop::{shop_step, Shop, ShopAction, ShopEvent, ShopItem, ShopUiState};
use terradventure::npc::{Alchemist, Blacksmith, Npc, NpcTrait, Witch};

fn s(x: &str) -> String {
    x.to_string()
}

fn text(x: &str) -> JsonValue {
    JsonValue::String(s(x))
}

fn lang_json() -> JsonValue {
    JsonValue::Object(vec![
        (
            s("npc"),
            JsonValue::Object(vec![(
                s("Witch"),
                JsonValue::Object(vec![
                    (s("name"), text("Sorcière")),
                    (
                        s("dialog"),
                        JsonValue::Object(vec![
                            (
                                s("line"),
                                JsonValue::Object(vec![(s("hello"), text("Bonjour")), (s("bye"), text("Adieu"))]),
                            ),
                            (s("choices"), JsonValue::Object(vec![(s("ok"), text("D'accord"))])),
                        ]),
                    ),
                ]),
            )]),
        ),
        (s("ui"), JsonValue::Object(vec![(s("shop"), JsonValue::Object(vec![(s("buy"), text("Acheter"))]))])),
    ])
}

#[test]
fn language_codes() {
    assert_eq!(LangIdentifier::Francais.code(), "fr");
    assert_eq!(LangIdentifier::English.code(), "en");
    assert!(LangIdentifier::from_code("en") == Some(LangIdentifier::English));
    assert!(LangIdentifier::from_code("de").is_none());
    assert_eq!(LangIdentifier::Francais.display_name(), "Français");
    assert!(LangIdentifier::default() == LangIdentifier::Francais);
    assert_eq!(LangIdentifier::all().len(), 2);
}

#[test]
fn flatten_joins_paths_with_dots() {
    let mut out = Vec::new();
    flatten_json(&lang_json(), "", &mut out);
    assert_eq!(
        out,
        vec![
            (s("npc.Witch.name"), s("Sorcière")),
            (s("npc.Witch.dialog.line.hello"), s("Bonjour")),
            (s("npc.Witch.dialog.line.bye"), s("Adieu")),
            (s("npc.Witch.dialog.choices.ok"), s("D'accord")),
            (s("ui.shop.buy"), s("Acheter")),
        ]
    );
    let mut out = Vec::new();
    flatten_json(&text("x"), "a.b", &mut out);
    assert_eq!(out, vec![(s("a.b"), s("x"))]);
}

#[test]
fn loaded_language_translates_or_echoes() {
    let lang = Lang::from_ident(LangIdentifier::Francais).load(&lang_json());
    assert_eq!(lang.name, "Français");
    assert_eq!(lang.get("ui.shop.buy"), "Acheter");
    assert_eq!(lang.get("ui.shop.sell"), "ui.shop.sell");
    assert_eq!(lang.get(""), "");
}

#[test]
fn later_entries_win() {
    let json = JsonValue::Object(vec![
        (s("a"), JsonValue::Object(vec![(s("b"), text("first"))])),
        (s("a.b"), text("second")),
    ]);
    let lang = Lang::new(LangIdentifier::English, s("English")).load(&json);
    assert_eq!(lang.get("a.b"), "second");
}

fn dialog() -> Dialog {
    Dialog {
        lines: vec![
            DialogLine {
                message: s("hello"),
                choices: vec![
                    DialogChoice { message: s("ok"), action: DialogChoiceAction::NextLine },
                    DialogChoice { message: s("no"), action: DialogChoiceAction::EndDialog(s("bye")) },
                ],
            },
            DialogLine { message: s("bye"), choices: vec![] },
        ],
    }
}

fn resource(line_index: isize) -> CurrentDialog {
    CurrentDialog(Some(DialogResource { orator_name: s("Witch"), dialog: dialog(), line_index }))
}

#[test]
fn next_line_walks_then_closes() {
    let mut d = resource(0);
    next_line(&mut d);
    assert_eq!(d.0.as_ref().unwrap().line_index, 1);
    next_line(&mut d);
    assert_eq!(d.0.as_ref().unwrap().line_index, 2);
    next_line(&mut d);
    assert!(!in_dialog(&d));
    let mut ended = resource(-1);
    next_line(&mut ended);
    assert!(ended.0.is_none());
}

#[test]
fn choices_act_on_the_dialog() {
    let mut d = resource(0);
    assert!(d.0.as_ref().unwrap().line_has_choices());
    match apply_choice(&mut d, &DialogChoiceAction::EndDialog(s("Adieu"))) {
        ChoiceOutcome::EndMessage(m) => assert_eq!(m, "Adieu"),
        _ => panic!("expected an ending"),
    }
    assert_eq!(d.0.as_ref().unwrap().line_index, -1);
    assert!(!d.0.as_ref().unwrap().line_has_choices());

    let mut d = resource(0);
    assert!(matches!(apply_choice(&mut d, &DialogChoiceAction::GotoLine(1)), ChoiceOutcome::Jumped));
    assert_eq!(d.0.as_ref().unwrap().line_index, 1);
    assert!(!d.0.as_ref().unwrap().line_has_choices());

    let mut d = resource(0);
    match apply_choice(&mut d, &DialogChoiceAction::OpenShop(s("potions"))) {
        ChoiceOutcome::OpenShop(name) => assert_eq!(name, "potions"),
        _ => panic!("expected a shop"),
    }
    assert_eq!(d.0.as_ref().unwrap().line_index, 1);

    let mut d = resource(1);
    assert!(matches!(apply_choice(&mut d, &DialogChoiceAction::NextLine), ChoiceOutcome::Advanced));
    assert_eq!(d.0.as_ref().unwrap().line_index, 2);
    assert!(d.0.as_ref().unwrap().current_line().is_none());
}

#[test]
fn characters() {
    let witch = Npc::Witch(Witch);
    assert_eq!(witch.name(), "Witch");
    assert_eq!(witch.texture_size(), 128);
    assert_eq!(Npc::Blacksmith(Blacksmith).texture_size(), 80);
    assert_eq!(Npc::Alchemist(Alchemist).texture_size(), 85);
    assert_eq!(witch.get_texture(), "textures/npc/Witch.png");
    assert_eq!(witch.dialog_file(), "assets/dialogs/Witch.json");
    assert_eq!(witch.name_key(), "npc.Witch.name");
    assert!(Npc::from_name("Alchemist") == Some(Npc::Alchemist(Alchemist)));
    assert!(Npc::from_name("Bob").is_none());
}

#[test]
fn dialogs_are_translated() {
    let lang = Lang::from_ident(LangIdentifier::Francais).load(&lang_json());
    let witch = Npc::Witch(Witch);
    let out = witch.translated_dialog(&dialog(), &lang);
    assert_eq!(out.lines[0].message, "Bonjour");
    assert_eq!(out.lines[0].choices[0].message, "D'accord");
    assert_eq!(out.lines[0].choices[1].message, "npc.Witch.dialog.choices.no");
    match &out.lines[0].choices[1].action {
        DialogChoiceAction::EndDialog(m) => assert_eq!(m, "Adieu"),
        _ => panic!("expected an ending"),
    }
    assert!(matches!(out.lines[0].choices[0].action, DialogChoiceAction::NextLine));
    assert_eq!(out.lines[1].message, "Adieu");
    assert_eq!(lang.get(&witch.name_key()), "Sorcière");
}

#[test]
fn shop_tabs() {
    let tabs = ShopUiState::all();
    assert!(tabs == vec![ShopUiState::Buy, ShopUiState::Sell]);
    assert_eq!(ShopUiState::Buy.lang_key(), "ui.shop.buy");
    assert_eq!(ShopUiState::Sell.lang_key(), format!("ui.shop.{}", ShopUiState::Sell.name().to_lowercase()));
}

#[test]
fn shop_item_label_names_the_stack() {
    let item = ShopItem {
        stack: ItemStack { item: ItemObject::Wool(Wool), count: 2 },
        price: 10,
    };
    assert_eq!(item.label(), "Wool x3");
    let single = ShopItem {
        stack: ItemStack::new_one(ItemObject::Wool(Wool)),
        price: 1,
    };
    assert_eq!(single.label(), "Wool x1");
    let full = ShopItem {
        stack: ItemStack { item: ItemObject::Wool(Wool), count: 255 },
        price: 1,
    };
    assert_eq!(full.label(), "Wool x256");
}

#[test]
fn world_entries_show_name_or_error() {
    let json = JsonValue::Object(vec![
        (
            s("ui"),
            JsonValue::Object(vec![(
                s("main_menu"),
                JsonValue::Object(vec![(
                    s("load_save"),
                    JsonValue::Object(vec![(
                        s("err"),
                        JsonValue::Object(vec![
                            (s("corrupted"), text("Sauvegarde corrompue")),
                            (s("io"), text("Lecture impossible")),
                        ]),
                    )]),
                )]),
            )]),
        ),
    ]);
    let lang = Lang::from_ident(LangIdentifier::Francais).load(&json);
    assert_eq!(world_entry_text(&Ok(s("Monde")), &lang), "Monde");
    assert_eq!(
        world_entry_text(&Err(s("ui.main_menu.load_save.err.io")), &lang),
        "Sauvegarde corrompue : Lecture impossible"
    );
    assert_eq!(
        world_entry_text(&Err(s("unknown")), &lang),
        "Sauvegarde corrompue : unknown"
    );
}

#[test]
fn dialog_closes_after_the_lines_left_plus_one() {
    for start in -2isize..5 {
        let mut d = resource(start);
        let expected = if (0..=2).contains(&start) { (2 - start + 1) as usize } else { 1 };
        let mut calls = 0usize;
        while in_dialog(&d) {
            assert_eq!(d.0.as_ref().unwrap().line_index, start + calls as isize);
            next_line(&mut d);
            calls += 1;
        }
        assert_eq!(calls, expected);
    }
}

#[test]
fn known_language_codes() {
    assert!(LangIdentifier::from_known_code("fr") == LangIdentifier::Francais);
    assert!(LangIdentifier::from_known_code("en") == LangIdentifier::English);
    assert!(LangIdentifier::from_code("de").is_none());
}

fn shop() -> Shop {
    Shop {
        sells: vec![
            ShopItem { stack: ItemStack { item: ItemObject::Wool(Wool), count: 4 }, price: 30 },
            ShopItem { stack: ItemStack::new_one(ItemObject::Wool(Wool)), price: 5 },
        ],
        buys: vec![],
    }
}

#[test]
fn shop_sells_what_the_player_can_pay() {
    let shop = shop();
    let mut state = ShopUiState::Buy;
    let mut money: u64 = 40;
    let a = shop_step(&shop, &mut state, &mut money, ShopEvent::Buy(0));
    assert!(a == ShopAction::Bought(ItemStack { item: ItemObject::Wool(Wool), count: 4 }));
    assert_eq!(money, 10);
    let a = shop_step(&shop, &mut state, &mut money, ShopEvent::Buy(0));
    assert!(a == ShopAction::TooPoor);
    assert_eq!(money, 10);
    let a = shop_step(&shop, &mut state, &mut money, ShopEvent::Buy(1));
    assert!(a == ShopAction::Bought(ItemStack::new_one(ItemObject::Wool(Wool))));
    assert_eq!(money, 5);
    let a = shop_step(&shop, &mut state, &mut money, ShopEvent::Buy(2));
    assert!(a == ShopAction::Stay);
    assert_eq!(money, 5);
}

#[test]
fn shop_tabs_and_closing() {
    let shop = shop();
    let mut state = ShopUiState::Buy;
    let mut money: u64 = 100;
    let a = shop_step(&shop, &mut state, &mut money, ShopEvent::Tab(ShopUiState::Sell));
    assert!(a == ShopAction::Stay && state == ShopUiState::Sell);
    let a = shop_step(&shop, &mut state, &mut money, ShopEvent::Buy(0));
    assert!(a == ShopAction::Stay);
    assert_eq!(money, 100);
    let a = shop_step(&shop, &mut state, &mut money, ShopEvent::Close);
    assert!(a == ShopAction::Closed && state == ShopUiState::Sell);
    assert_eq!(money, 100);
}

#[test]
fn translation_files_are_read_from_their_text() {
    let text = r#"{"npc": {"Witch": {"name": "Sorcière"}}, "ui": {"quit": "Quitter"}}"#;
    let lang = Lang::from_ident(LangIdentifier::Francais).load_text(text).unwrap();
    assert_eq!(lang.get("npc.Witch.name"), "Sorcière");
    assert_eq!(lang.get("ui.quit"), "Quitter");
    assert_eq!(lang.get("ui"), "ui");
    assert!(Lang::from_ident(LangIdentifier::English).load_text(r#"{"a": 1}"#).is_none());
    assert!(Lang::from_ident(LangIdentifier::English).load_text("not json").is_none());
    assert!(Lang::from_ident(LangIdentifier::English).load_text(r#"["a"]"#).is_none());
}

#[test]
fn keybind_rows_are_labelled_in_order() {
    let text = r#"{"ui": {"settings": {"keybinds": {"jump": "Sauter", "move_left": "Gauche"}}}}"#;
    let lang = Lang::from_ident(LangIdentifier::Francais).load_text(text).unwrap();
    let rows = keybind_rows(&lang);
    assert_eq!(rows.len(), 10);
    assert!(rows[0].0 == KeybindField::MoveLeft);
    assert_eq!(rows[0].1, "Gauche :  ");
    assert!(rows[3].0 == KeybindField::Jump);
    assert_eq!(rows[3].1, "Sauter :  ");
    assert!(rows[9].0 == KeybindField::SplitStack);
    assert_eq!(rows[9].1, "ui.settings.keybinds.split_stack :  ");
    assert_eq!(KeybindField::SpecialAttack2.name(), "special_attack_2");
}

#[test]
fn the_language_in_use_is_highlighted() {
    let v = lang_choices(LangIdentifier::English);
    assert_eq!(v.len(), 2);
    assert!(v[0].ident == LangIdentifier::Francais && v[0].name == "Français" && !v[0].highlighted);
    assert!(v[1].ident == LangIdentifier::English && v[1].name == "English" && v[1].highlighted);
    let v = lang_choices(LangIdentifier::Francais);
    assert!(v[0].highlighted && !v[1].highlighted);
}
