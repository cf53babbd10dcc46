//! The city translation table (`cities` translations file): for each
//! language, city keys mapped to display names.

use vstd::prelude::*;

verus! {

/// One language's entries: city key and display name.
pub struct CityNames {
    pub lang: String,
    pub names: Vec<(String, String)>,
}

/// The city table, one `CityNames` per language.
pub struct CityTable {
    pub languages: Vec<CityNames>,
}

/// The display name of the first entry with key `key`.
pub open spec fn lookup_name(names: Seq<(String, String)>, key: Seq<char>) -> Option<Seq<char>>
    decreases names.len(),
{
    if names.len() == 0 {
        None
    } else if names[0].0@ == key {
        Some(names[0].1@)
    } else {
        lookup_name(names.drop_first(), key)
    }
}

/// The entries of the first language called `lang`, if any.
pub open spec fn lookup_language(langs: Seq<CityNames>, lang: Seq<char>) -> Option<Seq<(String, String)>>
    decreases langs.len(),
{
    if langs.len() == 0 {
        None
    } else if langs[0].lang@ == lang {
        Some(langs[0].names@)
    } else {
        lookup_language(langs.drop_first(), lang)
    }
}

/// The display name of city `key` in language `lang`; `None` when the
/// language or the city is missing.
pub open spec fn city_name(table: CityTable, lang: Seq<char>, key: Seq<char>) -> Option<Seq<char>> {
    match lookup_language(table.languages@, lang) {
        Some(names) => lookup_name(names, key),
        None => None,
    }
}

/// Looking up a key gives the name of the first entry with that key, and
/// nothing when no entry has it.
pub proof fn lookup_name_first(names: Seq<(String, String)>, key: Seq<char>, i: int)
    requires
        0 <= i <= names.len(),
        forall|j: int| 0 <= j < i ==> (#[trigger] names[j]).0@ != key,
        i == names.len() || names[i].0@ == key,
    ensures
        lookup_name(names, key) == (if i < names.len() { Some(names[i].1@) } else { None::<Seq<char>> }),
    decreases names.len(),
{
    if names.len() > 0 && names[0].0@ != key {
        assert forall|j: int| 0 <= j < i - 1 implies (#[trigger] names.drop_first()[j]).0@ != key by {
            assert(names.drop_first()[j] == names[j + 1]);
        }
        lookup_name_first(names.drop_first(), key, i - 1);
    }
}

/// Looking up a language gives the entries of the first language with that
/// name, and nothing when no language has it.
pub proof fn lookup_language_first(langs: Seq<CityNames>, lang: Seq<char>, i: int)
    requires
        0 <= i <= langs.len(),
        forall|j: int| 0 <= j < i ==> (#[trigger] langs[j]).lang@ != lang,
        i == langs.len() || langs[i].lang@ == lang,
    ensures
        lookup_language(langs, lang) == (if i < langs.len() {
            Some(langs[i].names@)
        } else {
            None::<Seq<(String, String)>>
        }),
    decreases langs.len(),
{
    if langs.len() > 0 && langs[0].lang@ != lang {
        assert forall|j: int| 0 <= j < i - 1 implies (#[trigger] langs.drop_first()[j]).lang@ != lang by {
            assert(langs.drop_first()[j] == langs[j + 1]);
        }
        lookup_language_first(langs.drop_first(), lang, i - 1);
    }
}

/// A city's display name in a language is the name that the first entry
/// for that city gives under the first entry for that language; there is
/// none when the language or the city is not listed.
pub proof fn city_name_is_listed_name(table: CityTable, lang: Seq<char>, key: Seq<char>, li: int, ni: int)
    requires
        0 <= li <= table.languages@.len(),
        forall|j: int| 0 <= j < li ==> (#[trigger] table.languages@[j]).lang@ != lang,
        li == table.languages@.len() || table.languages@[li].lang@ == lang,
        li < table.languages@.len() ==> ({
            let names = table.languages@[li].names@;
            &&& 0 <= ni <= names.len()
            &&& forall|j: int| 0 <= j < ni ==> (#[trigger] names[j]).0@ != key
            &&& ni == names.len() || names[ni].0@ == key
        }),
    ensures
        li == table.languages@.len() ==> city_name(table, lang, key) is None,
        li < table.languages@.len() ==> city_name(table, lang, key) == ({
            let names = table.languages@[li].names@;
            if ni < names.len() { Some(names[ni].1@) } else { None::<Seq<char>> }
        }),
{
    lookup_language_first(table.languages@, lang, li);
    if li < table.languages@.len() {
        lookup_name_first(table.languages@[li].names@, key, ni);
    }
}

/// A lower-case hexadecimal digit.
pub open spec fn hex_digit(d: int) -> char {
    if d < 10 { (48 + d) as char } else { (87 + d) as char }
}

/// How `serde_json` writes one character inside a JSON string: `"` and `\`
/// escaped with a backslash, backspace, tab, line feed, form feed and
/// carriage return as `\b \t \n \f \r`, other characters below U+0020 as
/// `\u00XX` in lower-case hex, everything else unchanged.
pub open spec fn json_escape_char(c: char) -> Seq<char> {
    if c == '"' {
        seq!['\\', '"']
    } else if c == '\\' {
        seq!['\\', '\\']
    } else if c == '\u{8}' {
        seq!['\\', 'b']
    } else if c == '\t' {
        seq!['\\', 't']
    } else if c == '\n' {
        seq!['\\', 'n']
    } else if c == '\u{c}' {
        seq!['\\', 'f']
    } else if c == '\r' {
        seq!['\\', 'r']
    } else if (c as int) < 32 {
        seq!['\\', 'u', '0', '0', hex_digit((c as int) / 16), hex_digit((c as int) % 16)]
    } else {
        seq![c]
    }
}

/// The escaped contents of a JSON string.
pub open spec fn json_escape(s: Seq<char>) -> Seq<char>
    decreases s.len(),
{
    if s.len() == 0 {
        Seq::empty()
    } else {
        json_escape(s.drop_last()) + json_escape_char(s.last())
    }
}

/// What `serde_json` prints for a JSON string value holding `s`: the
/// escaped characters between double quotes.
pub open spec fn json_string(s: Seq<char>) -> Seq<char> {
    seq!['"'] + json_escape(s) + seq!['"']
}

/// The text of the `city` column for a post or a search: the JSON
/// rendering of the Georgian display name, or `null` when the key is unknown.
pub open spec fn city_column_spec(table: CityTable, key: Seq<char>) -> Seq<char> {
    match city_name(table, "GEO"@, key) {
        Some(name) => json_string(name),
        None => "null"@,
    }
}

/// Prints `s` as a JSON string value (`serde_json::Value::String(..).to_string()`,
/// whose `Display` writes compact JSON): the result is `json_string(s)`, as
/// serde_json's escape table and `write_char_escape` show.
#[verifier::external_body]
pub(crate) fn json_string_literal(s: &str) -> (r: String)
    ensures
        r@ == json_string(s@),
{
    serde_json::Value::String(s.to_string()).to_string()
}

/// Index of the first entry with key `key`.
fn find_name(names: &Vec<(String, String)>, key: &String) -> (r: Option<usize>)
    ensures
        match r {
            Some(i) => i < names.len() && lookup_name(names@, key@) == Some(names@[i as int].1@),
            None => lookup_name(names@, key@) is None,
        },
{
    let mut i: usize = 0;
    assert(names@.skip(0) =~= names@);
    while i < names.len()
        invariant
            i <= names.len(),
            lookup_name(names@, key@) == lookup_name(names@.skip(i as int), key@),
        decreases names.len() - i,
    {
        assert(names@.skip(i as int).drop_first() =~= names@.skip(i + 1));
        if names[i].0 == *key {
            return Some(i);
        }
        i = i + 1;
    }
    None
}

/// Index of the first language called `lang`.
fn find_language(langs: &Vec<CityNames>, lang: &String) -> (r: Option<usize>)
    ensures
        match r {
            Some(i) => i < langs.len() && lookup_language(langs@, lang@) == Some(langs@[i as int].names@),
            None => lookup_language(langs@, lang@) is None,
        },
{
    let mut i: usize = 0;
    assert(langs@.skip(0) =~= langs@);
    while i < langs.len()
        invariant
            i <= langs.len(),
            lookup_language(langs@, lang@) == lookup_language(langs@.skip(i as int), lang@),
        decreases langs.len() - i,
    {
        assert(langs@.skip(i as int).drop_first() =~= langs@.skip(i + 1));
        if langs[i].lang == *lang {
            return Some(i);
        }
        i = i + 1;
    }
    None
}

impl CityTable {
    /// The display name of city `key` in language `lang`.
    pub fn display_name(&self, lang: &String, key: &String) -> (r: Option<String>)
        ensures
            match r {
                Some(s) => city_name(*self, lang@, key@) == Some(s@),
                None => city_name(*self, lang@, key@) is None,
            },
    {
        match find_language(&self.languages, lang) {
            None => None,
            Some(li) => {
                let names = &self.languages[li].names;
                match find_name(names, key) {
                    None => None,
                    Some(ni) => Some(names[ni].1.clone()),
                }
            },
        }
    }

    /// The `city` column text for city key `key`.
    pub fn city_column(&self, key: &String) -> (r: String)
        ensures
            r@ == city_column_spec(*self, key@),
    {
        let geo = String::from_str("GEO");
        match self.display_name(&geo, key) {
            Some(name) => json_string_literal(name.as_str()),
            None => String::from_str("null"),
        }
    }
}

} // verus!
