//! The page of the main menu that lists the saved worlds.
use vstd::prelude::*;
use crate::lang::{pairs_view, translate, Lang};
use crate::text::owned;

verus! {

/// The text of a saved world's entry, `entry` being the world's name when
/// its save could be read and the key of the error otherwise: the name, or
/// the translation of the "corrupted" message, ` : ` and the translation of
/// the error.
pub fn world_entry_text(entry: &Result<String, String>, lang: &Lang) -> (s: String)
    requires
        lang.data is Some,
    ensures
        match *entry {
            Ok(name) => s@ == name@,
            Err(e) => s@ == translate(
                pairs_view(lang.data->0@),
                "ui.main_menu.load_save.err.corrupted"@,
            ) + " : "@ + translate(pairs_view(lang.data->0@), e@),
        },
{
    match entry {
        Ok(name) => owned(name.as_str()),
        Err(e) => {
            let mut s = owned(lang.get("ui.main_menu.load_save.err.corrupted"));
            s.append(" : ");
            s.append(lang.get(e.as_str()));
            s
        },
    }
}

} // verus!
