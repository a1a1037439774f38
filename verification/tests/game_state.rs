use terradventure::animation::{
    frame_count, Animation, AnimationController, AnimationDirection, AnimationMode, TimerMode, TimerReset,
};
use terradventure::chest::chest_animation_advances;
use terradventure::commands::{parse_command, CommandAction, CommandError};
use terradventure::effects::{Effect, EffectData, EffectTimer, EffectsController};
use terradventure::gui::main_menu::new_world::{calc_class_style, CurrentSelectedClass};
use terradventure::gui::settings::keybinds::{keybinds_step, Keybind, KeybindField, Keybinds};
use terradventure::interactable::Interactable;
use terradventure::items::list::mana_potion::ManaPotion;
use terradventure::items::list::wool::Wool;
use terradventure::items::list::ItemObject;
use terradventure::items::stack::ItemStack;
use terradventure::mob::list::rabbit::Rabbit;
use terradventure::mob::list::sheep::Sheep;
use terradventure::mob::{MobLootTable, MobTrait, MobType};
use terradventure::music::MusicAsset;

#[test]
fn timers_run_once() {
    let mut t = EffectTimer::new(10);
    t.tick(4);
    assert_eq!((t.elapsed, t.finished, t.remaining()), (4, false, 6));
    t.tick(100);
    assert_eq!((t.elapsed, t.finished, t.remaining()), (10, true, 0));
    t.tick(1);
    assert_eq!((t.elapsed, t.finished), (10, true));
    let mut z = EffectTimer::new(0);
    assert!(!z.finished);
    z.tick(0);
    assert!(z.finished);
}

#[test]
fn effects_keep_the_best() {
    let mut c = EffectsController::default();
    assert!(c.get_effect(&Effect::Levitation).is_none());
    c.add_new(Effect::Levitation, 100, 1);
    c.update(30);
    // 70 left; a shorter but stronger one raises the level only.
    c.add_new(Effect::Levitation, 50, 3);
    let d = *c.get_effect(&Effect::Levitation).unwrap();
    assert_eq!((d.timer.remaining(), d.level), (70, 3));
    // a longer but weaker one extends the time only.
    c.add(Effect::Levitation, EffectData::new(200, 1));
    let d = *c.get_effect(&Effect::Levitation).unwrap();
    assert_eq!((d.timer.remaining(), d.level), (200, 3));
}

#[test]
fn effects_end_when_their_time_is_up() {
    let mut c = EffectsController::new();
    c.add_new(Effect::Levitation, 10, 1);
    c.update(9);
    assert!(c.get_effect(&Effect::Levitation).is_some());
    c.update(1);
    assert!(c.get_effect(&Effect::Levitation).is_none());
    c.add_new(Effect::Levitation, 10, 1);
    c.clear_many(vec![Effect::Levitation]);
    assert!(c.get_effect(&Effect::Levitation).is_none());
    c.add_new(Effect::Levitation, 10, 1);
    c.clear_all();
    assert!(c.get_effect(&Effect::Levitation).is_none());
}

fn anim(mode: AnimationMode, direction: AnimationDirection) -> Animation {
    Animation { mode, direction, duration: 1000, frames: 4 }
}

fn controller() -> AnimationController {
    AnimationController::new(vec![
        ("Idle".to_string(), anim(AnimationMode::Repeating, AnimationDirection::Forwards)),
        ("Take".to_string(), anim(AnimationMode::Once, AnimationDirection::Forwards)),
        ("Walk".to_string(), anim(AnimationMode::Repeating, AnimationDirection::BackAndForth)),
    ])
}

#[test]
fn default_animation_plays_first() {
    let (c, reset) = controller().with_default("Idle");
    assert_eq!(c.default_animation.as_deref(), Some("Idle"));
    assert!(c.current_animation.is_none());
    assert!(reset == Some(TimerReset { mode: TimerMode::Repeating, duration: 1000 }));
    assert!(*c.current_animation().unwrap() == anim(AnimationMode::Repeating, AnimationDirection::Forwards));
    let (c, reset) = controller().with_default("Run");
    assert!(reset.is_none());
    assert!(c.default_animation.is_none());
    assert!(c.current_animation().is_none());
}

#[test]
fn one_shot_animation_finishes_and_returns_to_default() {
    let (mut c, _) = controller().with_default("Idle");
    let reset = c.play("Take");
    assert!(reset == TimerReset { mode: TimerMode::Once, duration: 1000 });
    assert_eq!(c.current_animation.as_deref(), Some("Take"));
    assert!(c.tick(false).is_none());
    assert!(!c.just_finished("Take"));
    let reset = c.tick(true);
    assert!(c.just_finished("Take"));
    assert!(c.current_animation.is_none());
    assert!(reset == Some(TimerReset { mode: TimerMode::Repeating, duration: 1000 }));
    c.tick(false);
    assert!(!c.just_finished("Take"));
}

#[test]
fn back_and_forth_turns_around() {
    let (mut c, _) = controller().with_default("Idle");
    c.play("Walk");
    assert!(!c.backwards);
    c.tick(true);
    assert!(c.backwards);
    c.tick(true);
    assert!(!c.backwards);
    assert!(c.stop() == Some(TimerReset { mode: TimerMode::Repeating, duration: 1000 }));
    assert!(c.current_animation.is_none());
    assert_eq!(frame_count(128, 32), 4);
    assert_eq!(frame_count(100, 32), 3);
}

#[test]
fn commands_are_read() {
    match parse_command("give Wool", true) {
        Ok(CommandAction::Give { item, count }) => {
            assert!(item == ItemObject::Wool(Wool));
            assert_eq!(count, 0);
        }
        _ => panic!("expected a give"),
    }
    match parse_command("give ManaPotion 16", true) {
        Ok(CommandAction::Give { item, count }) => {
            assert!(item == ItemObject::ManaPotion(ManaPotion));
            assert_eq!(count, 15);
        }
        _ => panic!("expected a give"),
    }
    match parse_command("give Wool 0", true) {
        Ok(CommandAction::Give { count, .. }) => assert_eq!(count, 255),
        _ => panic!("expected a give"),
    }
    match parse_command("tp 1.5 -3", true) {
        Ok(CommandAction::Teleport { args }) => assert_eq!(args, vec!["1.5", "-3"]),
        _ => panic!("expected a teleport"),
    }
}

#[test]
fn bad_commands_are_refused() {
    let msg = |m: &str, player: bool| match parse_command(m, player) {
        Err(e) => e.message(),
        Ok(_) => panic!("expected an error for {}", m),
    };
    assert_eq!(msg("give Wool", false), "Player not found");
    assert_eq!(msg("give", true), "Item not found");
    assert_eq!(msg("give Stone", true), "Item not found");
    assert_eq!(msg("give Wool many", true), "Second arg must be a number");
    assert_eq!(msg("give Wool 70000", true), "Second arg must be a number");
    assert_eq!(msg("tp 1 2", false), "Player not found");
    assert_eq!(msg("fly away", true), "Command not found fly");
    assert!(matches!(parse_command("", true), Err(CommandError::CommandNotFound(_))));
}

#[test]
fn class_chooser_goes_round() {
    let mut c = CurrentSelectedClass::default();
    c.select_left(3);
    assert_eq!(c.index, 2);
    c.select_right(3);
    assert_eq!(c.index, 0);
    c.select_right(3);
    assert_eq!(c.index, 1);
    let s = calc_class_style(0, 4, 5);
    assert!(s.visible && !s.enlarged);
    let s = calc_class_style(0, 2, 5);
    assert!(!s.visible);
    let s = calc_class_style(3, 3, 5);
    assert!(s.visible && s.enlarged);
}

#[test]
fn creatures_and_sounds() {
    assert_eq!(Sheep::default().texture("Idle"), "textures/mobs/sheep/Idle.png");
    assert!(Sheep::default().shorn);
    assert_eq!(Rabbit.death_loot_table().path(), "mobs/rabbit.json");
    let mob = Rabbit.mob_obj();
    assert!(mob.typ == MobType::Passive);
    assert_eq!(MobLootTable("pig").path(), "mobs/pig.json");
    assert_eq!(MusicAsset("background").path(), "audio/music/background.ogg");
}

#[test]
fn interactables_and_chests() {
    let mut i = Interactable::new("player.actions.mine");
    assert_eq!(i.message, "player.actions.mine");
    assert!(!i.just_pressed());
    i.set_just_pressed(true);
    assert!(i.just_pressed());
    assert_eq!(Interactable::default().message, "player.actions.interact");
    assert!(!chest_animation_advances(true, false));
    assert!(chest_animation_advances(true, true));
    assert!(chest_animation_advances(false, false));
}

#[test]
fn give_counts_hold_what_was_asked() {
    for n in 1u16..=256 {
        match parse_command(&format!("give Wool {n}"), true) {
            Ok(CommandAction::Give { item, count }) => {
                assert_eq!(ItemStack { item, count }.actual_count(), n);
            }
            _ => panic!("expected a give"),
        }
    }
}

#[test]
fn a_full_turn_of_the_class_chooser_comes_back() {
    for count in 1usize..6 {
        for start in 0..count {
            let mut c = CurrentSelectedClass { index: start };
            for _ in 0..count {
                c.select_right(count);
            }
            assert_eq!(c.index, start);
        }
    }
}

fn binds() -> Keybinds<u32, u8> {
    Keybinds {
        move_left: Keybind::Keyboard(1),
        move_right: Keybind::Keyboard(2),
        interact: Keybind::Keyboard(3),
        jump: Keybind::Keyboard(4),
        inventory: Keybind::Keyboard(5),
        attack: Keybind::Keyboard(6),
        special_attack_1: Keybind::Keyboard(7),
        special_attack_2: Keybind::Keyboard(8),
        special_attack_3: Keybind::Keyboard(9),
        split_stack: Keybind::Keyboard(10),
    }
}

#[test]
fn rebinding_waits_for_a_key() {
    let mut b = binds();
    let mut editing: Option<KeybindField> = None;
    keybinds_step(&mut editing, &mut b, Some(Keybind::Keyboard(99)), None);
    assert!(editing.is_none());
    assert!(matches!(b.jump, Keybind::Keyboard(4)));
    keybinds_step(&mut editing, &mut b, None, Some(KeybindField::Jump));
    assert!(editing == Some(KeybindField::Jump));
    keybinds_step(&mut editing, &mut b, None, None);
    assert!(editing == Some(KeybindField::Jump));
    keybinds_step(&mut editing, &mut b, Some(Keybind::Mouse(1)), None);
    assert!(editing.is_none());
    assert!(matches!(b.jump, Keybind::Mouse(1)));
    assert!(matches!(b.interact, Keybind::Keyboard(3)));
    assert!(matches!(b.split_stack, Keybind::Keyboard(10)));
}
