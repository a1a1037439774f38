//! Which key or mouse button does what, and rebinding them.
use vstd::prelude::*;
use crate::lang::{pairs_view, translate, Lang};
use crate::text::owned;

verus! {

/// A binding: a key of the keyboard or a button of the mouse.
#[derive(Debug, Clone, Copy)]
pub enum Keybind<K, B> {
    Keyboard(K),
    Mouse(B),
}

/// The actions a binding can be set for.
#[derive(Debug, Clone, Copy, PartialEq, Eq, Structural)]
pub enum KeybindField {
    MoveLeft,
    MoveRight,
    Interact,
    Jump,
    Inventory,
    Attack,
    SpecialAttack1,
    SpecialAttack2,
    SpecialAttack3,
    SplitStack,
}

/// The binding of every action.
#[derive(Debug, Clone, Copy)]
pub struct Keybinds<K, B> {
    pub move_left: Keybind<K, B>,
    pub move_right: Keybind<K, B>,
    pub interact: Keybind<K, B>,
    pub jump: Keybind<K, B>,
    pub inventory: Keybind<K, B>,
    pub attack: Keybind<K, B>,
    pub special_attack_1: Keybind<K, B>,
    pub special_attack_2: Keybind<K, B>,
    pub special_attack_3: Keybind<K, B>,
    pub split_stack: Keybind<K, B>,
}

impl<K, B> Keybinds<K, B> {
    /// The binding of `field`.
    pub open spec fn bind_of(self, field: KeybindField) -> Keybind<K, B> {
        match field {
            KeybindField::MoveLeft => self.move_left,
            KeybindField::MoveRight => self.move_right,
            KeybindField::Interact => self.interact,
            KeybindField::Jump => self.jump,
            KeybindField::Inventory => self.inventory,
            KeybindField::Attack => self.attack,
            KeybindField::SpecialAttack1 => self.special_attack_1,
            KeybindField::SpecialAttack2 => self.special_attack_2,
            KeybindField::SpecialAttack3 => self.special_attack_3,
            KeybindField::SplitStack => self.split_stack,
        }
    }

    /// The bindings with `field` bound to `bind` and the others as they are.
    pub open spec fn with_bind(self, field: KeybindField, bind: Keybind<K, B>) -> Keybinds<K, B> {
        match field {
            KeybindField::MoveLeft => Keybinds { move_left: bind, ..self },
            KeybindField::MoveRight => Keybinds { move_right: bind, ..self },
            KeybindField::Interact => Keybinds { interact: bind, ..self },
            KeybindField::Jump => Keybinds { jump: bind, ..self },
            KeybindField::Inventory => Keybinds { inventory: bind, ..self },
            KeybindField::Attack => Keybinds { attack: bind, ..self },
            KeybindField::SpecialAttack1 => Keybinds { special_attack_1: bind, ..self },
            KeybindField::SpecialAttack2 => Keybinds { special_attack_2: bind, ..self },
            KeybindField::SpecialAttack3 => Keybinds { special_attack_3: bind, ..self },
            KeybindField::SplitStack => Keybinds { split_stack: bind, ..self },
        }
    }

    /// Binds `field` to `bind`.
    pub fn set(&mut self, field: KeybindField, bind: Keybind<K, B>)
        ensures
            *final(self) == old(self).with_bind(field, bind),
    {
        match field {
            KeybindField::MoveLeft => self.move_left = bind,
            KeybindField::MoveRight => self.move_right = bind,
            KeybindField::Interact => self.interact = bind,
            KeybindField::Jump => self.jump = bind,
            KeybindField::Inventory => self.inventory = bind,
            KeybindField::Attack => self.attack = bind,
            KeybindField::SpecialAttack1 => self.special_attack_1 = bind,
            KeybindField::SpecialAttack2 => self.special_attack_2 = bind,
            KeybindField::SpecialAttack3 => self.special_attack_3 = bind,
            KeybindField::SplitStack => self.split_stack = bind,
        }
    }
}

/// Binding an action sets its binding and leaves every other action's.
pub proof fn lemma_with_bind<K, B>(binds: Keybinds<K, B>, field: KeybindField, bind: Keybind<K, B>)
    ensures
        binds.with_bind(field, bind).bind_of(field) == bind,
        forall|other: KeybindField|
            other != field ==> #[trigger] binds.with_bind(field, bind).bind_of(other)
                == binds.bind_of(other),
{
}

/// One frame of the bindings page: `editing` is the action waiting for a
/// new binding, `pressed` the key or button just pressed and `clicked` the
/// action whose button was just clicked. A pressed key binds the action
/// waited for, which then waits no more; a click makes its action wait.
pub fn keybinds_step<K, B>(
    editing: &mut Option<KeybindField>,
    binds: &mut Keybinds<K, B>,
    pressed: Option<Keybind<K, B>>,
    clicked: Option<KeybindField>,
)
    ensures
        match (*old(editing), pressed) {
            (Some(f), Some(b)) => *final(binds) == old(binds).with_bind(f, b),
            _ => *final(binds) == *old(binds),
        },
        clicked matches Some(f) ==> *final(editing) == Some(f),
        clicked is None ==> *final(editing) == (if *old(editing) is Some && pressed is Some {
            None
        } else {
            *old(editing)
        }),
{
    if let Some(f) = *editing {
        if let Some(b) = pressed {
            *editing = None;
            binds.set(f, b);
        }
    }
    if let Some(f) = clicked {
        *editing = Some(f);
    }
}

/// The name of the field that holds an action's binding.
pub open spec fn field_name(field: KeybindField) -> Seq<char> {
    match field {
        KeybindField::MoveLeft => "move_left"@,
        KeybindField::MoveRight => "move_right"@,
        KeybindField::Interact => "interact"@,
        KeybindField::Jump => "jump"@,
        KeybindField::Inventory => "inventory"@,
        KeybindField::Attack => "attack"@,
        KeybindField::SpecialAttack1 => "special_attack_1"@,
        KeybindField::SpecialAttack2 => "special_attack_2"@,
        KeybindField::SpecialAttack3 => "special_attack_3"@,
        KeybindField::SplitStack => "split_stack"@,
    }
}

/// Every action, in the order the bindings are listed.
pub open spec fn all_fields() -> Seq<KeybindField> {
    seq![KeybindField::MoveLeft, KeybindField::MoveRight, KeybindField::Interact, KeybindField::Jump, KeybindField::Inventory, KeybindField::Attack, KeybindField::SpecialAttack1, KeybindField::SpecialAttack2, KeybindField::SpecialAttack3, KeybindField::SplitStack]
}

/// The label of an action's row on the bindings page: the translation of
/// `ui.settings.keybinds.` and the field's name, followed by ` :  `.
pub open spec fn row_label(entries: Seq<(Seq<char>, Seq<char>)>, field: KeybindField) -> Seq<char> {
    translate(entries, "ui.settings.keybinds."@ + field_name(field)) + " :  "@
}

impl KeybindField {
    /// Every action, in the order the bindings are listed.
    pub fn all() -> (v: Vec<KeybindField>)
        ensures
            v@ == all_fields(),
    {
        let mut v = Vec::new();
        v.push(KeybindField::MoveLeft);
        v.push(KeybindField::MoveRight);
        v.push(KeybindField::Interact);
        v.push(KeybindField::Jump);
        v.push(KeybindField::Inventory);
        v.push(KeybindField::Attack);
        v.push(KeybindField::SpecialAttack1);
        v.push(KeybindField::SpecialAttack2);
        v.push(KeybindField::SpecialAttack3);
        v.push(KeybindField::SplitStack);
        v
    }

    /// The name of the field that holds the action's binding.
    pub fn name(&self) -> (s: String)
        ensures
            s@ == field_name(*self),
    {
        match self {
            KeybindField::MoveLeft => owned("move_left"),
            KeybindField::MoveRight => owned("move_right"),
            KeybindField::Interact => owned("interact"),
            KeybindField::Jump => owned("jump"),
            KeybindField::Inventory => owned("inventory"),
            KeybindField::Attack => owned("attack"),
            KeybindField::SpecialAttack1 => owned("special_attack_1"),
            KeybindField::SpecialAttack2 => owned("special_attack_2"),
            KeybindField::SpecialAttack3 => owned("special_attack_3"),
            KeybindField::SplitStack => owned("split_stack"),
        }
    }
}

/// The rows of the bindings page, in order: each action with its label.
pub fn keybind_rows(lang: &Lang) -> (rows: Vec<(KeybindField, String)>)
    requires
        lang.data is Some,
    ensures
        rows@.len() == all_fields().len(),
        forall|i: int|
            0 <= i < rows@.len() ==> (#[trigger] rows@[i]).0 == all_fields()[i] && rows@[i].1@
                == row_label(pairs_view(lang.data->0@), all_fields()[i]),
{
    let fields = KeybindField::all();
    let mut rows: Vec<(KeybindField, String)> = Vec::new();
    let mut i: usize = 0;
    while i < fields.len()
        invariant
            fields@ == all_fields(),
            lang.data is Some,
            i <= fields@.len(),
            rows@.len() == i,
            forall|j: int|
                0 <= j < i ==> (#[trigger] rows@[j]).0 == all_fields()[j] && rows@[j].1@
                    == row_label(pairs_view(lang.data->0@), all_fields()[j]),
        decreases fields.len() - i,
    {
        let field = fields[i];
        let mut key = owned("ui.settings.keybinds.");
        let name = field.name();
        key.append(name.as_str());
        let mut label = owned(lang.get(key.as_str()));
        label.append(" :  ");
        rows.push((field, label));
        i = i + 1;
    }
    rows
}

} // verus!
