//! Choosing the language of the interface.
use vstd::prelude::*;
use crate::lang::{lang_display_name, LangIdentifier};

verus! {

/// A language as the chooser offers it.
pub struct LangChoice {
    pub ident: LangIdentifier,
    /// The name the language is shown under.
    pub name: String,
    /// Whether it is the language in use, which the chooser frames.
    pub highlighted: bool,
}

/// The languages the chooser offers, in order, `current` being the one in
/// use.
pub fn lang_choices(current: LangIdentifier) -> (v: Vec<LangChoice>)
    ensures
        v@.len() == 2,
        forall|i: int|
            0 <= i < v@.len() ==> {
                let ident = seq![LangIdentifier::Francais, LangIdentifier::English][i];
                &&& (#[trigger] v@[i]).ident == ident
                &&& v@[i].name@ == lang_display_name(ident)
                &&& v@[i].highlighted == (ident == current)
            },
{
    let all = LangIdentifier::all();
    let mut v: Vec<LangChoice> = Vec::new();
    let mut i: usize = 0;
    while i < all.len()
        invariant
            all@ == seq![LangIdentifier::Francais, LangIdentifier::English],
            i <= all@.len(),
            v@.len() == i,
            forall|j: int|
                0 <= j < i ==> {
                    &&& (#[trigger] v@[j]).ident == all@[j]
                    &&& v@[j].name@ == lang_display_name(all@[j])
                    &&& v@[j].highlighted == (all@[j] == current)
                },
        decreases all.len() - i,
    {
        let ident = all[i];
        let highlighted = match (ident, current) {
            (LangIdentifier::Francais, LangIdentifier::Francais) => true,
            (LangIdentifier::English, LangIdentifier::English) => true,
            _ => false,
        };
        v.push(LangChoice { ident, name: ident.display_name(), highlighted });
        i = i + 1;
    }
    v
}

} // verus!
