//! The characters of the world that the player can talk to.
use vstd::prelude::*;
use crate::lang::{pairs_view, translate, Lang};
use crate::text::{join_path, join_path_spec, owned, text_eq};
use self::dialog::{action_view, ActionView, Dialog, DialogChoice, DialogChoiceAction, DialogLine};

pub mod dialog;
pub mod shop;

verus! {

/// What differs between characters.
pub trait NpcTrait {
    /// The side, in pixels, of the square of the texture showing the face.
    spec fn spec_texture_size(&self) -> u32;

    fn texture_size(&self) -> (s: u32)
        ensures
            s == self.spec_texture_size(),
    ;
}

#[derive(Debug, Clone, Copy, PartialEq, Eq, Structural, Default)]
pub struct Blacksmith;

impl NpcTrait for Blacksmith {
    open spec fn spec_texture_size(&self) -> u32 {
        80
    }

    fn texture_size(&self) -> (s: u32) {
        80
    }
}

#[derive(Debug, Clone, Copy, PartialEq, Eq, Structural, Default)]
pub struct Alchemist;

impl NpcTrait for Alchemist {
    open spec fn spec_texture_size(&self) -> u32 {
        85
    }

    fn texture_size(&self) -> (s: u32) {
        85
    }
}

#[derive(Debug, Clone, Copy, PartialEq, Eq, Structural, Default)]
pub struct Witch;

impl NpcTrait for Witch {
    open spec fn spec_texture_size(&self) -> u32 {
        128
    }

    fn texture_size(&self) -> (s: u32) {
        128
    }
}

/// The characters the player can talk to.
#[derive(Debug, Clone, Copy, PartialEq, Eq, Structural)]
pub enum Npc {
    Blacksmith(Blacksmith),
    Witch(Witch),
    Alchemist(Alchemist),
}

impl NpcTrait for Npc {
    open spec fn spec_texture_size(&self) -> u32 {
        match self {
            Npc::Blacksmith(n) => n.spec_texture_size(),
            Npc::Witch(n) => n.spec_texture_size(),
            Npc::Alchemist(n) => n.spec_texture_size(),
        }
    }

    fn texture_size(&self) -> (s: u32) {
        match self {
            Npc::Blacksmith(n) => n.texture_size(),
            Npc::Witch(n) => n.texture_size(),
            Npc::Alchemist(n) => n.texture_size(),
        }
    }
}

/// The name of a character: its variant name.
pub open spec fn npc_name(npc: Npc) -> Seq<char> {
    match npc {
        Npc::Blacksmith(_) => "Blacksmith"@,
        Npc::Witch(_) => "Witch"@,
        Npc::Alchemist(_) => "Alchemist"@,
    }
}

/// The character named `s`, if any.
pub open spec fn npc_from_name(s: Seq<char>) -> Option<Npc> {
    if s == "Blacksmith"@ {
        Some(Npc::Blacksmith(Blacksmith))
    } else if s == "Witch"@ {
        Some(Npc::Witch(Witch))
    } else if s == "Alchemist"@ {
        Some(Npc::Alchemist(Alchemist))
    } else {
        None
    }
}

/// The translation keys of a character's dialog start with this.
pub open spec fn dialog_key_base(name: Seq<char>) -> Seq<char> {
    "npc."@ + name + ".dialog"@
}

/// The translation key of a line's message.
pub open spec fn line_key(base: Seq<char>, message: Seq<char>) -> Seq<char> {
    base + ".line."@ + message
}

/// The translation key of an answer's message.
pub open spec fn choice_key(base: Seq<char>, message: Seq<char>) -> Seq<char> {
    base + ".choices."@ + message
}

/// The translated form of an action: the last message of an ending is a
/// line key and gets translated; other actions stay as they are.
pub open spec fn translated_action(
    a: DialogChoiceAction,
    b: DialogChoiceAction,
    entries: Seq<(Seq<char>, Seq<char>)>,
    base: Seq<char>,
) -> bool {
    match a {
        DialogChoiceAction::EndDialog(m) => action_view(b) == ActionView::EndDialog(
            translate(entries, line_key(base, m@)),
        ),
        _ => action_view(b) == action_view(a),
    }
}

/// `out` is `line` with its texts translated by `entries`.
pub open spec fn translated_line(
    line: DialogLine,
    out: DialogLine,
    entries: Seq<(Seq<char>, Seq<char>)>,
    base: Seq<char>,
) -> bool {
    &&& out.message@ == translate(entries, line_key(base, line.message@))
    &&& out.choices@.len() == line.choices@.len()
    &&& forall|i: int|
        0 <= i < line.choices@.len() ==> {
            &&& (#[trigger] out.choices@[i]).message@ == translate(
                entries,
                choice_key(base, line.choices@[i].message@),
            )
            &&& translated_action(line.choices@[i].action, out.choices@[i].action, entries, base)
        }
}

/// The translation of `key`, as an owned string.
fn tr(lang: &Lang, key: &String) -> (r: String)
    requires
        lang.data is Some,
    ensures
        r@ == translate(pairs_view(lang.data->0@), key@),
{
    owned(lang.get(key.as_str()))
}

fn concat3(a: &str, b: &str, c: &str) -> (r: String)
    ensures
        r@ == a@ + b@ + c@,
{
    let mut r = owned(a);
    r.append(b);
    r.append(c);
    r
}

impl Npc {
    /// The name of the character.
    pub fn name(&self) -> (s: String)
        ensures
            s@ == npc_name(*self),
    {
        match self {
            Npc::Blacksmith(_) => owned("Blacksmith"),
            Npc::Witch(_) => owned("Witch"),
            Npc::Alchemist(_) => owned("Alchemist"),
        }
    }

    /// The character named exactly `s`.
    pub fn from_name(s: &str) -> (n: Option<Npc>)
        ensures
            n == npc_from_name(s@),
    {
        if text_eq(s, "Blacksmith") {
            Some(Npc::Blacksmith(Blacksmith))
        } else if text_eq(s, "Witch") {
            Some(Npc::Witch(Witch))
        } else if text_eq(s, "Alchemist") {
            Some(Npc::Alchemist(Alchemist))
        } else {
            None
        }
    }

    /// The file that holds the character's dialog.
    pub fn dialog_file(&self) -> (p: String)
        ensures
            p@ == "assets/dialogs/"@ + npc_name(*self) + ".json"@,
    {
        let name = self.name();
        concat3("assets/dialogs/", name.as_str(), ".json")
    }

    /// The translation key of the character's name.
    pub fn name_key(&self) -> (k: String)
        ensures
            k@ == "npc."@ + npc_name(*self) + ".name"@,
    {
        let name = self.name();
        concat3("npc.", name.as_str(), ".name")
    }

    /// The path of the character's texture.
    pub fn get_texture(&self) -> (p: String)
        ensures
            p@ == join_path_spec("textures/npc"@, npc_name(*self) + ".png"@),
    {
        let mut file = self.name();
        file.append(".png");
        join_path("textures/npc", file.as_str())
    }

    /// `line` with its message, its answers, and the last message of an
    /// ending translated under the character's dialog keys.
    pub fn translate_dialog_line(&self, line: &DialogLine, lang: &Lang) -> (out: DialogLine)
        requires
            lang.data is Some,
        ensures
            translated_line(*line, out, pairs_view(lang.data->0@), dialog_key_base(npc_name(*self))),
    {
        let ghost entries = pairs_view(lang.data->0@);
        let npc_name = self.name();
        let npc_dialog_path = concat3("npc.", npc_name.as_str(), ".dialog");
        let ghost base = dialog_key_base(npc_name@);
        let message_key = concat3(npc_dialog_path.as_str(), ".line.", line.message.as_str());
        let message = tr(lang, &message_key);
        let mut choices: Vec<DialogChoice> = Vec::new();
        let mut i: usize = 0;
        while i < line.choices.len()
            invariant
                lang.data is Some,
                entries == pairs_view(lang.data->0@),
                npc_dialog_path@ == base,
                i <= line.choices@.len(),
                choices@.len() == i,
                forall|j: int|
                    0 <= j < i ==> {
                        &&& (#[trigger] choices@[j]).message@ == translate(
                            entries,
                            choice_key(base, line.choices@[j].message@),
                        )
                        &&& translated_action(line.choices@[j].action, choices@[j].action, entries, base)
                    },
            decreases line.choices.len() - i,
        {
            let choice = &line.choices[i];
            let key = concat3(npc_dialog_path.as_str(), ".choices.", choice.message.as_str());
            let choice_message = tr(lang, &key);
            let action = match &choice.action {
                DialogChoiceAction::EndDialog(m) => {
                    let end_key = concat3(npc_dialog_path.as_str(), ".line.", m.as_str());
                    DialogChoiceAction::EndDialog(tr(lang, &end_key))
                },
                other => other.duplicate(),
            };
            choices.push(DialogChoice { message: choice_message, action });
            i = i + 1;
        }
        DialogLine { message, choices }
    }

    /// The dialog with every line translated (see `translate_dialog_line`).
    pub fn translated_dialog(&self, dialog: &Dialog, lang: &Lang) -> (out: Dialog)
        requires
            lang.data is Some,
        ensures
            out.lines@.len() == dialog.lines@.len(),
            forall|i: int|
                0 <= i < dialog.lines@.len() ==> translated_line(
                    #[trigger] dialog.lines@[i],
                    out.lines@[i],
                    pairs_view(lang.data->0@),
                    dialog_key_base(npc_name(*self)),
                ),
    {
        let mut lines: Vec<DialogLine> = Vec::new();
        let mut i: usize = 0;
        while i < dialog.lines.len()
            invariant
                lang.data is Some,
                i <= dialog.lines@.len(),
                lines@.len() == i,
                forall|j: int|
                    0 <= j < i ==> translated_line(
                        #[trigger] dialog.lines@[j],
                        lines@[j],
                        pairs_view(lang.data->0@),
                        dialog_key_base(npc_name(*self)),
                    ),
            decreases dialog.lines.len() - i,
        {
            let line = self.translate_dialog_line(&dialog.lines[i], lang);
            lines.push(line);
            i = i + 1;
        }
        Dialog { lines }
    }
}

/// Reading back the name of a character gives the same character.
pub proof fn lemma_npc_name_round_trip(npc: Npc)
    ensures
        npc_from_name(npc_name(npc)) == Some(npc),
{
    reveal_strlit("Blacksmith");
    reveal_strlit("Witch");
    reveal_strlit("Alchemist");
    assert("Blacksmith"@[0] == 'B');
    assert("Witch"@[0] == 'W');
    assert("Alchemist"@[0] == 'A');
}

} // verus!
