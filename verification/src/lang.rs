//! Languages of the interface and their translated texts.
use vstd::prelude::*;
use crate::text::{owned, text_eq};

verus! {

/// The languages the game can be shown in.
#[derive(Debug, Clone, Copy, PartialEq, Eq, Structural)]
pub enum LangIdentifier {
    Francais,
    English,
}

/// The code of a language, which names its translation file.
pub open spec fn lang_code(ident: LangIdentifier) -> Seq<char> {
    match ident {
        LangIdentifier::Francais => "fr"@,
        LangIdentifier::English => "en"@,
    }
}

/// The name a language is shown under.
pub open spec fn lang_display_name(ident: LangIdentifier) -> Seq<char> {
    match ident {
        LangIdentifier::Francais => "Français"@,
        LangIdentifier::English => "English"@,
    }
}

/// The language whose code is `code`, if any.
pub open spec fn lang_from_code(code: Seq<char>) -> Option<LangIdentifier> {
    if code == "fr"@ {
        Some(LangIdentifier::Francais)
    } else if code == "en"@ {
        Some(LangIdentifier::English)
    } else {
        None
    }
}

impl Default for LangIdentifier {
    /// French is the language the game starts in.
    fn default() -> (l: LangIdentifier)
        ensures
            l == LangIdentifier::Francais,
    {
        LangIdentifier::Francais
    }
}

impl LangIdentifier {
    /// Every language, in the order they are offered.
    pub fn all() -> (v: Vec<LangIdentifier>)
        ensures
            v@ == seq![LangIdentifier::Francais, LangIdentifier::English],
    {
        let mut v = Vec::new();
        v.push(LangIdentifier::Francais);
        v.push(LangIdentifier::English);
        v
    }

    /// The code of the language (`fr`, `en`).
    pub fn code(&self) -> (s: String)
        ensures
            s@ == lang_code(*self),
    {
        match self {
            LangIdentifier::Francais => owned("fr"),
            LangIdentifier::English => owned("en"),
        }
    }

    /// The name the language is shown under.
    pub fn display_name(&self) -> (s: String)
        ensures
            s@ == lang_display_name(*self),
    {
        match self {
            LangIdentifier::Francais => owned("Français"),
            LangIdentifier::English => owned("English"),
        }
    }

    /// The language whose code is `code`, if any.
    pub fn from_code(code: &str) -> (l: Option<LangIdentifier>)
        ensures
            l == lang_from_code(code@),
    {
        if text_eq(code, "fr") {
            Some(LangIdentifier::Francais)
        } else if text_eq(code, "en") {
            Some(LangIdentifier::English)
        } else {
            None
        }
    }

    /// The language whose code is `code`, which must be the code of one of
    /// the languages (see `from_code` for any text).
    pub fn from_known_code(code: &str) -> (l: LangIdentifier)
        requires
            lang_from_code(code@) is Some,
        ensures
            lang_from_code(code@) == Some(l),
    {
        if text_eq(code, "fr") {
            LangIdentifier::Francais
        } else {
            LangIdentifier::English
        }
    }
}

/// Reading back the code of a language gives the same language.
pub proof fn lemma_lang_code_round_trip(ident: LangIdentifier)
    ensures
        lang_from_code(lang_code(ident)) == Some(ident),
{
    reveal_strlit("fr");
    reveal_strlit("en");
    assert("fr"@[0] != "en"@[0]);
}

/// A parsed JSON document, as far as translation files need it: objects,
/// strings, and anything else.
pub enum JsonValue {
    Object(Vec<(String, JsonValue)>),
    String(String),
    Other,
}

/// `serde_json::Value`, carried through without looking inside.
#[verifier::external_type_specification]
#[verifier::external_body]
pub struct ExJsonValue(serde_json::Value);

/// The document that the text `text` holds when parsed as JSON, `None` when
/// it is not a JSON document.
pub uninterp spec fn parsed_json(text: Seq<char>) -> Option<JsonValue>;

/// `serde_json::from_str::<serde_json::Value>` on `text`, with the parsed
/// document converted to a `JsonValue`: objects keep their members in the
/// order the parser's map gives them, strings stay strings, and every other
/// value becomes `Other`; `None` when the parser refuses the text. The
/// result depends on the text alone and is named `parsed_json`; which texts
/// the parser accepts and how it orders members is not restated here.
#[verifier::external_body]
pub fn parse_json(text: &str) -> (r: Option<JsonValue>)
    ensures
        r == parsed_json(text@),
{
    serde_json::from_str::<serde_json::Value>(text).ok().map(|v| json_value_of(&v))
}

/// A parsed `serde_json::Value` as a `JsonValue`, converted variant for
/// variant.
#[verifier::external_body]
fn json_value_of(value: &serde_json::Value) -> JsonValue {
    match value {
        serde_json::Value::Object(obj) => JsonValue::Object(
            obj.iter().map(|(key, member)| (key.clone(), json_value_of(member))).collect(),
        ),
        serde_json::Value::String(s) => JsonValue::String(s.clone()),
        _ => JsonValue::Other,
    }
}

/// Whether `json` is made of objects and strings only.
pub open spec fn json_is_text_tree(json: JsonValue) -> bool
    decreases json,
{
    match json {
        JsonValue::Object(fields) => forall|i: int|
            0 <= i < fields@.len() ==> json_is_text_tree(#[trigger] fields@[i].1),
        JsonValue::String(_) => true,
        JsonValue::Other => false,
    }
}

/// Whether `json` is made of objects and strings only (see
/// `json_is_text_tree`).
pub fn is_text_tree(json: &JsonValue) -> (r: bool)
    ensures
        r == json_is_text_tree(*json),
    decreases json,
{
    match json {
        JsonValue::Object(fields) => {
            let mut i: usize = 0;
            while i < fields.len()
                invariant
                    *json == JsonValue::Object(*fields),
                    i <= fields@.len(),
                    forall|j: int| 0 <= j < i ==> json_is_text_tree(#[trigger] fields@[j].1),
                decreases fields.len() - i,
            {
                proof {
                    assert(decreases_to!(*json => (*json)->Object_0));
                    assert(decreases_to!(*fields => fields@));
                    assert(decreases_to!(fields@ => fields@[i as int]));
                    assert(decreases_to!(fields@[i as int] => fields@[i as int].1));
                }
                if !is_text_tree(&fields[i].1) {
                    return false;
                }
                i = i + 1;
            }
            true
        },
        JsonValue::String(_) => true,
        JsonValue::Other => false,
    }
}

/// The key of a member `key` under the path `prefix`: the two joined by a
/// dot, or `key` alone at the top.
pub open spec fn child_key(prefix: Seq<char>, key: Seq<char>) -> Seq<char> {
    if prefix.len() == 0 {
        key
    } else {
        prefix + "."@ + key
    }
}

/// The strings of `json` with the dotted paths that lead to them, in
/// document order.
pub open spec fn flatten_spec(json: JsonValue, prefix: Seq<char>) -> Seq<(Seq<char>, Seq<char>)>
    decreases json, 1int,
{
    match json {
        JsonValue::Object(fields) => flatten_fields(fields@, prefix, fields@.len() as int),
        JsonValue::String(s) => seq![(prefix, s@)],
        JsonValue::Other => Seq::empty(),
    }
}

/// The strings under the first `n` members of an object.
pub open spec fn flatten_fields(fields: Seq<(String, JsonValue)>, prefix: Seq<char>, n: int) -> Seq<(Seq<char>, Seq<char>)>
    decreases fields, 0int, n,
{
    if n <= 0 || n > fields.len() {
        Seq::empty()
    } else {
        flatten_fields(fields, prefix, n - 1) + flatten_spec(fields[n - 1].1, child_key(prefix, fields[n - 1].0@))
    }
}

/// Text pairs seen as pairs of character sequences.
pub open spec fn pairs_view(v: Seq<(String, String)>) -> Seq<(Seq<char>, Seq<char>)> {
    v.map_values(|p: (String, String)| (p.0@, p.1@))
}

/// The text recorded last for `key` among `entries`, if any: a later entry
/// for a key replaces an earlier one.
pub open spec fn lookup(entries: Seq<(Seq<char>, Seq<char>)>, key: Seq<char>) -> Option<Seq<char>>
    decreases entries.len(),
{
    if entries.len() == 0 {
        None
    } else if entries.last().0 == key {
        Some(entries.last().1)
    } else {
        lookup(entries.drop_last(), key)
    }
}

/// The dictionary the entries make, later entries replacing earlier ones.
pub open spec fn entries_map(entries: Seq<(Seq<char>, Seq<char>)>) -> Map<Seq<char>, Seq<char>> {
    Map::new(|k: Seq<char>| lookup(entries, k) is Some, |k: Seq<char>| lookup(entries, k)->0)
}

/// The text `key` stands for in a language whose entries are `entries`:
/// its translation, or `key` itself when it has none.
pub open spec fn translate(entries: Seq<(Seq<char>, Seq<char>)>, key: Seq<char>) -> Seq<char> {
    match lookup(entries, key) {
        Some(v) => v,
        None => key,
    }
}

/// The key of a member `key` under `prefix` (see `child_key`).
fn make_child_key(prefix: &str, key: &str) -> (r: String)
    ensures
        r@ == child_key(prefix@, key@),
{
    if prefix.unicode_len() == 0 {
        owned(key)
    } else {
        let mut r = owned(prefix);
        r.append(".");
        r.append(key);
        r
    }
}

/// Appends to `flattened` every string of `json` with the dotted path that
/// leads to it (see `flatten_spec`).
pub fn flatten_json(json: &JsonValue, prefix: &str, flattened: &mut Vec<(String, String)>)
    requires
        json_is_text_tree(*json),
    ensures
        pairs_view(final(flattened)@) == pairs_view(old(flattened)@) + flatten_spec(*json, prefix@),
    decreases json,
{
    match json {
        JsonValue::Object(obj) => {
            let ghost start = pairs_view(flattened@);
            let mut i: usize = 0;
            proof {
                assert(flatten_fields(obj@, prefix@, 0) =~= Seq::empty());
                assert(pairs_view(flattened@) =~= start + flatten_fields(obj@, prefix@, 0));
            }
            while i < obj.len()
                invariant
                    forall|j: int| 0 <= j < obj@.len() ==> json_is_text_tree(#[trigger] obj@[j].1),
                    *json == JsonValue::Object(*obj),
                    i <= obj.len(),
                    pairs_view(flattened@) == start + flatten_fields(obj@, prefix@, i as int),
                    start == pairs_view(old(flattened)@),
                decreases obj.len() - i,
            {
                let key = make_child_key(prefix, obj[i].0.as_str());
                proof {
                    assert(decreases_to!(*json => (*json)->Object_0));
                    assert(decreases_to!(*obj => obj@));
                    assert(decreases_to!(obj@ => obj@[i as int]));
                    assert(decreases_to!(obj@[i as int] => obj@[i as int].1));
                    assert(decreases_to!(*json => obj@[i as int].1));
                }
                let ghost before = pairs_view(flattened@);
                flatten_json(&obj[i].1, key.as_str(), flattened);
                proof {
                    assert(flatten_fields(obj@, prefix@, i + 1) == flatten_fields(obj@, prefix@, i as int)
                        + flatten_spec(obj@[i as int].1, child_key(prefix@, obj@[i as int].0@)));
                    assert(pairs_view(flattened@) =~= start + flatten_fields(obj@, prefix@, i + 1));
                }
                i = i + 1;
            }
        },
        JsonValue::String(value) => {
            let ghost before = flattened@;
            flattened.push((owned(prefix), value.clone()));
            proof {
                assert(pairs_view(flattened@) =~= pairs_view(before) + seq![(prefix@, value@)]);
            }
        },
        JsonValue::Other => {},
    }
}

/// A language of the interface and, once loaded, its translations.
pub struct Lang {
    pub ident: LangIdentifier,
    pub name: String,
    pub data: Option<Vec<(String, String)>>,
}

impl Lang {
    /// A language named `name`, not loaded yet.
    pub fn new(ident: LangIdentifier, name: String) -> (l: Lang)
        ensures
            l.ident == ident,
            l.name@ == name@,
            l.data is None,
    {
        Lang { ident, name, data: None }
    }

    /// The language `ident` under its display name, not loaded yet.
    pub fn from_ident(ident: LangIdentifier) -> (l: Lang)
        ensures
            l.ident == ident,
            l.name@ == lang_display_name(ident),
            l.data is None,
    {
        let name = ident.display_name();
        Lang::new(ident, name)
    }

    /// The language's identifier.
    pub fn identifier(&self) -> (i: LangIdentifier)
        ensures
            i == self.ident,
    {
        self.ident
    }

    /// The language with the translations of the document `json` (the
    /// content of its translation file): each string of the document,
    /// keyed by the dotted path that leads to it.
    pub fn load(self, json: &JsonValue) -> (l: Lang)
        requires
            json_is_text_tree(*json),
        ensures
            l.ident == self.ident,
            l.name@ == self.name@,
            l.data matches Some(d) && pairs_view(d@) == flatten_spec(*json, Seq::empty()),
    {
        let mut map: Vec<(String, String)> = Vec::new();
        flatten_json(json, "", &mut map);
        proof {
            reveal_strlit("");
            assert(""@ =~= Seq::<char>::empty());
            assert(pairs_view(Seq::<(String, String)>::empty()) =~= Seq::empty());
            assert(pairs_view(map@) =~= flatten_spec(*json, Seq::empty()));
        }
        Lang { ident: self.ident, name: self.name, data: Some(map) }
    }

    /// The language with the translations of the translation file whose
    /// text is `text` (see `load`); `None` when the text is not a JSON
    /// document made of objects and strings only.
    pub fn load_text(self, text: &str) -> (r: Option<Lang>)
        ensures
            r is Some <==> (parsed_json(text@) matches Some(j) && json_is_text_tree(j)),
            r matches Some(l) ==> {
                &&& l.ident == self.ident
                &&& l.name@ == self.name@
                &&& l.data is Some
                &&& pairs_view(l.data->0@) == flatten_spec(parsed_json(text@)->0, Seq::empty())
            },
    {
        match parse_json(text) {
            Some(json) => {
                if is_text_tree(&json) {
                    Some(self.load(&json))
                } else {
                    None
                }
            },
            None => None,
        }
    }

    /// The translation of `key`, or `key` itself when the language has
    /// none for it. The language must be loaded.
    pub fn get<'a>(&'a self, key: &'a str) -> (r: &'a str)
        requires
            self.data is Some,
        ensures
            r@ == translate(pairs_view(self.data->0@), key@),
    {
        match &self.data {
            Some(d) => {
                let mut i: usize = d.len();
                proof {
                    assert(d@.take(d.len() as int) =~= d@);
                }
                while i > 0
                    invariant
                        i <= d.len(),
                        self.data == Some(*d),
                        lookup(pairs_view(d@), key@) == lookup(pairs_view(d@.take(i as int)), key@),
                    decreases i,
                {
                    proof {
                        assert(pairs_view(d@.take(i as int)).drop_last() =~= pairs_view(d@.take(i - 1)));
                        assert(pairs_view(d@.take(i as int)).last() == (d@[i - 1].0@, d@[i - 1].1@));
                    }
                    if text_eq(d[i - 1].0.as_str(), key) {
                        proof {
                            assert(lookup(pairs_view(d@.take(i as int)), key@) == Some(d@[i - 1].1@));
                        }
                        return d[i - 1].1.as_str();
                    }
                    i = i - 1;
                }
                key
            },
            None => key,
        }
    }
}

impl Default for Lang {
    /// The default language, not loaded yet.
    fn default() -> (l: Lang)
        ensures
            l.ident == LangIdentifier::Francais,
            l.data is None,
    {
        Lang::from_ident(LangIdentifier::Francais)
    }
}

/// The latest entry for a key is the one that counts: after an entry
/// `(key, value)` is added, `key` reads `value` and every other key reads
/// what it read before.
pub proof fn lemma_lookup_latest(entries: Seq<(Seq<char>, Seq<char>)>, key: Seq<char>, value: Seq<char>, other: Seq<char>)
    requires
        other != key,
    ensures
        lookup(entries.push((key, value)), key) == Some(value),
        lookup(entries.push((key, value)), other) == lookup(entries, other),
        translate(entries.push((key, value)), key) == value,
{
    assert(entries.push((key, value)).drop_last() =~= entries);
}

/// Flattening an object keeps every entry that flattening any one of its
/// members gives under that member's path: no member is left out.
pub proof fn lemma_flatten_keeps_members(json: JsonValue, prefix: Seq<char>, i: int)
    requires
        json is Object,
        0 <= i < json->Object_0@.len(),
    ensures
        forall|k: int|
            0 <= k < flatten_spec(json->Object_0@[i].1, child_key(prefix, json->Object_0@[i].0@)).len()
                ==> flatten_spec(json, prefix).contains(
                #[trigger] flatten_spec(json->Object_0@[i].1, child_key(prefix, json->Object_0@[i].0@))[k],
            ),
{
    let fields = json->Object_0@;
    lemma_fields_keep_member(fields, prefix, fields.len() as int, i);
}

/// A string member of an object is loaded under its path: flattening the
/// object has the entry of the member's key, joined to the prefix, and its
/// text.
pub proof fn lemma_flatten_keeps_strings(json: JsonValue, prefix: Seq<char>, i: int)
    requires
        json is Object,
        0 <= i < json->Object_0@.len(),
        json->Object_0@[i].1 is String,
    ensures
        flatten_spec(json, prefix).contains(
            (child_key(prefix, json->Object_0@[i].0@), json->Object_0@[i].1->String_0@),
        ),
{
    lemma_flatten_keeps_members(json, prefix, i);
    let child = flatten_spec(json->Object_0@[i].1, child_key(prefix, json->Object_0@[i].0@));
    assert(child[0] == (child_key(prefix, json->Object_0@[i].0@), json->Object_0@[i].1->String_0@));
}

proof fn lemma_fields_keep_member(fields: Seq<(String, JsonValue)>, prefix: Seq<char>, n: int, i: int)
    requires
        0 <= i < n <= fields.len(),
    ensures
        forall|k: int|
            0 <= k < flatten_spec(fields[i].1, child_key(prefix, fields[i].0@)).len()
                ==> flatten_fields(fields, prefix, n).contains(
                #[trigger] flatten_spec(fields[i].1, child_key(prefix, fields[i].0@))[k],
            ),
    decreases n,
{
    let child = flatten_spec(fields[i].1, child_key(prefix, fields[i].0@));
    let before = flatten_fields(fields, prefix, n - 1);
    let last = flatten_spec(fields[n - 1].1, child_key(prefix, fields[n - 1].0@));
    assert(flatten_fields(fields, prefix, n) == before + last);
    if i == n - 1 {
        assert forall|k: int| 0 <= k < child.len() implies flatten_fields(fields, prefix, n).contains(
            #[trigger] child[k],
        ) by {
            assert((before + last)[before.len() + k] == child[k]);
        }
    } else {
        lemma_fields_keep_member(fields, prefix, n - 1, i);
        assert forall|k: int| 0 <= k < child.len() implies flatten_fields(fields, prefix, n).contains(
            #[trigger] child[k],
        ) by {
            assert(before.contains(child[k]));
            let j = choose|j: int| 0 <= j < before.len() && before[j] == child[k];
            assert((before + last)[j] == child[k]);
        }
    }
}

} // verus!
