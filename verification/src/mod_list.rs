//! The mod list of an instance: which mods the engine is to load, and the
//! file that tells it.

use crate::error::ServerError;
use crate::instance::{mod_names, BaseMods, InstanceSettings};
use crate::text::{chain, digit_char, join, join_with, lemma_views_push, views};
use crate::version::{triple_le, Version};
use vstd::prelude::*;
use vstd::string::*;

verus! {

broadcast use vstd::string::group_string_axioms;

/// One line of the mod list: a mod and whether the engine is to load it.
#[derive(Debug, PartialEq, Eq)]
pub struct ModListMod {
    pub name: String,
    pub enabled: bool,
}

/// The mod list of an instance, in the order in which it is written.
#[derive(Debug, PartialEq, Eq)]
pub struct ModList {
    pub mods: Vec<ModListMod>,
}

/// The entries of a mod list as names and flags.
pub open spec fn entry_views(mods: Seq<ModListMod>) -> Seq<(Seq<char>, bool)> {
    mods.map_values(|m: ModListMod| (m.name@, m.enabled))
}

/// The first version whose engine ships the expansion mods.
pub open spec fn expansion_version() -> (nat, nat, nat) {
    (2, 0, 0)
}

/// Whether an engine of this version ships the expansion mods.
pub open spec fn ships_expansion(version: (nat, nat, nat)) -> bool {
    triple_le(expansion_version(), version)
}

/// The entries for the mods that ship with the engine, the base game aside.
pub open spec fn shipped_entries(version: (nat, nat, nat), base_mods: BaseMods) -> Seq<
    (Seq<char>, bool),
> {
    if ships_expansion(version) {
        seq![
            ("elevated-rails"@, base_mods.elevated_rails),
            ("quality"@, base_mods.quality),
            ("space-age"@, base_mods.space_age),
        ]
    } else {
        Seq::empty()
    }
}

/// The mod list of an instance: the base game, always enabled; from version
/// 2.0.0 on the three shipped mods with their flags; then the declared mods
/// in their order, each enabled.
pub open spec fn mod_list_spec(
    version: (nat, nat, nat),
    base_mods: BaseMods,
    names: Seq<Seq<char>>,
) -> Seq<(Seq<char>, bool)> {
    seq![("base"@, true)] + shipped_entries(version, base_mods) + names.map_values(
        |name: Seq<char>| (name, true),
    )
}

/// The lowercase hexadecimal digit for `d` (`0 <= d < 16`).
pub open spec fn hex_digit(d: int) -> char {
    if d < 10 {
        digit_char(d)
    } else if d == 10 {
        'a'
    } else if d == 11 {
        'b'
    } else if d == 12 {
        'c'
    } else if d == 13 {
        'd'
    } else if d == 14 {
        'e'
    } else {
        'f'
    }
}

/// How one character stands inside a JSON string literal: the quote and
/// the backslash behind a backslash; backspace, tab, line feed, form feed
/// and carriage return by their letter behind a backslash; every other
/// character below the space as `\u00` and its two hexadecimal digits; all
/// else as it is.
pub open spec fn json_escape(c: char) -> Seq<char> {
    let code = c as int;
    if c == '"' {
        seq!['\\', '"']
    } else if c == '\\' {
        seq!['\\', '\\']
    } else if code == 0x08 {
        seq!['\\', 'b']
    } else if code == 0x09 {
        seq!['\\', 't']
    } else if code == 0x0a {
        seq!['\\', 'n']
    } else if code == 0x0c {
        seq!['\\', 'f']
    } else if code == 0x0d {
        seq!['\\', 'r']
    } else if code < 0x20 {
        seq!['\\', 'u', '0', '0', hex_digit(code / 16), hex_digit(code % 16)]
    } else {
        seq![c]
    }
}

/// The characters of a text as they stand inside a JSON string literal.
pub open spec fn json_escaped(s: Seq<char>) -> Seq<char>
    decreases s.len(),
{
    if s.len() == 0 {
        Seq::empty()
    } else {
        json_escape(s[0]) + json_escaped(s.skip(1))
    }
}

/// The JSON string literal of a text: the escaped text between double
/// quotes.
pub open spec fn json_string_text(s: Seq<char>) -> Seq<char> {
    seq!['"'] + json_escaped(s) + seq!['"']
}

/// Calls `serde_json::to_string` on a string slice, and turns its error into
/// the error's text. The call succeeds on every string: a string is written
/// by `serialize_str`, which escapes it into a byte vector, and writing to a
/// vector does not fail. What comes back is the string between double
/// quotes, each byte escaped by `serde_json`'s table `ESCAPE`, which
/// `json_escape` restates.
#[verifier::external_body]
fn json_quote(s: &str) -> (r: Result<String, String>)
    ensures
        r is Ok,
        r matches Ok(text) ==> text@ == json_string_text(s@),
{
    match serde_json::to_string(s) {
        Ok(text) => Ok(text),
        Err(e) => Err(e.to_string()),
    }
}

/// How a flag is written in JSON.
pub open spec fn flag_text(flag: bool) -> Seq<char> {
    if flag {
        "true"@
    } else {
        "false"@
    }
}

/// One entry of the mod list file, given the JSON literal of the name.
pub open spec fn entry_text(quoted_name: Seq<char>, enabled: bool) -> Seq<char> {
    "{\"name\":"@ + quoted_name + ",\"enabled\":"@ + flag_text(enabled) + "}"@
}

/// The mod list file around its entries.
pub open spec fn document_text(entries: Seq<Seq<char>>) -> Seq<char> {
    "{\"mods\":["@ + join(entries, ","@) + "]}"@
}

/// The mod list file for the given entries and the JSON literals of their names.
pub open spec fn rendered_text(entries: Seq<(Seq<char>, bool)>, quoted: Seq<Seq<char>>) -> Seq<
    char,
> {
    document_text(Seq::new(entries.len(), |i: int| entry_text(quoted[i], entries[i].1)))
}

/// The mod list file for the given entries.
pub open spec fn mod_list_text(entries: Seq<(Seq<char>, bool)>) -> Seq<char> {
    rendered_text(entries, Seq::new(entries.len(), |i: int| json_string_text(entries[i].0)))
}

impl ModList {
    /// Writes the mod list file from the entries and the JSON literal of
    /// each entry's name: `{"mods":[{"name":..,"enabled":..},..]}`.
    pub fn render(&self, quoted: &Vec<String>) -> (text: String)
        requires
            quoted.len() == self.mods.len(),
        ensures
            text@ == rendered_text(entry_views(self.mods@), views(quoted@)),
    {
        let n: usize = self.mods.len();
        let mut entries: Vec<String> = Vec::new();
        let mut i: usize = 0;
        let ghost wanted = Seq::new(
            entry_views(self.mods@).len(),
            |i: int| entry_text(views(quoted@)[i], entry_views(self.mods@)[i].1),
        );
        assert(views(entries@) =~= wanted.take(0));
        while i < n
            invariant
                i <= n,
                n == self.mods.len(),
                n == quoted.len(),
                wanted == Seq::new(
                    entry_views(self.mods@).len(),
                    |i: int| entry_text(views(quoted@)[i], entry_views(self.mods@)[i].1),
                ),
                views(entries@) == wanted.take(i as int),
            decreases n - i,
        {
            let mut entry = chain("{\"name\":", quoted[i].as_str());
            entry.append(",\"enabled\":");
            if self.mods[i].enabled {
                entry.append("true");
            } else {
                entry.append("false");
            }
            entry.append("}");
            proof {
                lemma_views_push(entries@, entry);
                assert(entry@ == wanted[i as int]);
                assert(wanted.take(i + 1) =~= wanted.take(i as int).push(entry@));
            }
            entries.push(entry);
            i = i + 1;
        }
        assert(wanted.take(n as int) =~= wanted);
        let mut text = chain("{\"mods\":[", join_with(&entries, ",").as_str());
        text.append("]}");
        text
    }

    /// The text of the mod list file, which every mod list has. The JSON
    /// literal of each name is `serde_json`'s.
    pub fn to_json(&self) -> (r: Result<String, ServerError>)
        ensures
            r matches Ok(text) && text@ == mod_list_text(entry_views(self.mods@)),
    {
        let n: usize = self.mods.len();
        let mut quoted: Vec<String> = Vec::new();
        let mut i: usize = 0;
        let ghost entries = entry_views(self.mods@);
        let ghost wanted = Seq::new(entries.len(), |i: int| json_string_text(entries[i].0));
        assert(views(quoted@) =~= wanted.take(0));
        while i < n
            invariant
                i <= n,
                n == self.mods.len(),
                entries == entry_views(self.mods@),
                wanted == Seq::new(entries.len(), |i: int| json_string_text(entries[i].0)),
                views(quoted@) == wanted.take(i as int),
            decreases n - i,
        {
            match json_quote(self.mods[i].name.as_str()) {
                Ok(literal) => {
                    proof {
                        lemma_views_push(quoted@, literal);
                        assert(wanted.take(i + 1) =~= wanted.take(i as int).push(literal@));
                    }
                    quoted.push(literal);
                },
                Err(message) => {
                    return Err(ServerError::SerdeJsonError(message));
                },
            }
            i = i + 1;
        }
        assert(wanted.take(n as int) =~= wanted);
        Ok(self.render(&quoted))
    }
}

/// The mod list of an instance with these settings.
pub fn build_mod_list(settings: &InstanceSettings) -> (list: ModList)
    ensures
        entry_views(list.mods@) == mod_list_spec(
            settings.factorio_version@,
            settings.base_mods,
            mod_names(settings.mods@),
        ),
{
    let mut mods: Vec<ModListMod> = Vec::new();
    mods.push(ModListMod { name: String::from_str("base"), enabled: true });
    if settings.factorio_version.at_least(&Version::new(2, 0, 0)) {
        mods.push(
            ModListMod {
                name: String::from_str("elevated-rails"),
                enabled: settings.base_mods.elevated_rails,
            },
        );
        mods.push(
            ModListMod { name: String::from_str("quality"), enabled: settings.base_mods.quality },
        );
        mods.push(
            ModListMod {
                name: String::from_str("space-age"),
                enabled: settings.base_mods.space_age,
            },
        );
    }
    let ghost head = seq![("base"@, true)] + shipped_entries(
        settings.factorio_version@,
        settings.base_mods,
    );
    let ghost names = mod_names(settings.mods@);
    let ghost tail = names.map_values(|name: Seq<char>| (name, true));
    assert(entry_views(mods@) =~= head);
    assert(head + tail.take(0) =~= head);
    let n: usize = settings.mods.len();
    let mut i: usize = 0;
    while i < n
        invariant
            i <= n,
            n == settings.mods.len(),
            names == mod_names(settings.mods@),
            tail == names.map_values(|name: Seq<char>| (name, true)),
            entry_views(mods@) == head + tail.take(i as int),
        decreases n - i,
    {
        let ghost before = mods@;
        mods.push(ModListMod { name: settings.mods[i].name.clone(), enabled: true });
        assert(entry_views(mods@) =~= entry_views(before).push((settings.mods@[i as int].name@, true)));
        assert(head + tail.take(i + 1) =~= (head + tail.take(i as int)).push(
            (settings.mods@[i as int].name@, true),
        ));
        i = i + 1;
    }
    assert(tail.take(n as int) =~= tail);
    ModList { mods }
}

/// The text of the mod list file of an instance with these settings;
/// there is one for all settings.
pub fn build_mod_list_json(settings: &InstanceSettings) -> (r: Result<String, ServerError>)
    ensures
        r matches Ok(text) && text@ == mod_list_text(
            mod_list_spec(
                settings.factorio_version@,
                settings.base_mods,
                mod_names(settings.mods@),
            ),
        ),
{
    build_mod_list(settings).to_json()
}

/// The base game comes first and is enabled, whatever the flags say.
pub proof fn lemma_base_always_enabled(
    version: (nat, nat, nat),
    base_mods: BaseMods,
    names: Seq<Seq<char>>,
)
    ensures
        mod_list_spec(version, base_mods, names).len() > 0,
        mod_list_spec(version, base_mods, names)[0] == ("base"@, true),
{
}

/// Before version 2.0.0 the list holds the base game and the declared mods,
/// and no entry for a shipped mod.
pub proof fn lemma_no_shipped_mods_before_expansion(
    version: (nat, nat, nat),
    base_mods: BaseMods,
    names: Seq<Seq<char>>,
)
    requires
        !ships_expansion(version),
    ensures
        mod_list_spec(version, base_mods, names) == seq![("base"@, true)] + names.map_values(
            |name: Seq<char>| (name, true),
        ),
{
    assert(mod_list_spec(version, base_mods, names) =~= seq![("base"@, true)] + names.map_values(
        |name: Seq<char>| (name, true),
    ));
}

/// From version 2.0.0 on the three shipped mods follow the base game, in
/// this order and with their flags, and the declared mods follow them.
pub proof fn lemma_shipped_mods_from_expansion(
    version: (nat, nat, nat),
    base_mods: BaseMods,
    names: Seq<Seq<char>>,
)
    requires
        ships_expansion(version),
    ensures
        mod_list_spec(version, base_mods, names) == seq![
            ("base"@, true),
            ("elevated-rails"@, base_mods.elevated_rails),
            ("quality"@, base_mods.quality),
            ("space-age"@, base_mods.space_age),
        ] + names.map_values(|name: Seq<char>| (name, true)),
{
    assert(mod_list_spec(version, base_mods, names) =~= seq![
        ("base"@, true),
        ("elevated-rails"@, base_mods.elevated_rails),
        ("quality"@, base_mods.quality),
        ("space-age"@, base_mods.space_age),
    ] + names.map_values(|name: Seq<char>| (name, true)));
}

/// The value of a hexadecimal digit, in either case.
pub open spec fn hex_value(c: char) -> Option<int> {
    if '0' <= c && c <= '9' {
        Some(c as int - '0' as int)
    } else if 'a' <= c && c <= 'f' {
        Some(c as int - 'a' as int + 10)
    } else if 'A' <= c && c <= 'F' {
        Some(c as int - 'A' as int + 10)
    } else {
        None
    }
}

/// The character that a letter behind a backslash stands for in JSON.
pub open spec fn json_letter(c: char) -> Option<char> {
    if c == '"' || c == '\\' || c == '/' {
        Some(c)
    } else if c == 'b' {
        Some(0x08 as char)
    } else if c == 't' {
        Some(0x09 as char)
    } else if c == 'n' {
        Some(0x0a as char)
    } else if c == 'f' {
        Some(0x0c as char)
    } else if c == 'r' {
        Some(0x0d as char)
    } else {
        None
    }
}

/// `c` in front of what was read, if anything was.
pub open spec fn read_on(c: char, rest: Option<Seq<char>>) -> Option<Seq<char>> {
    match rest {
        Some(rest) => Some(seq![c] + rest),
        None => None,
    }
}

/// What a reader of JSON reads from the inside of a string literal: a
/// backslash begins an escape, by letter or by `u` and four hexadecimal
/// digits; a bare quote or a character below the space is not allowed; all
/// else stands for itself. A `\u` escape of half a surrogate pair is not
/// read: no literal of `json_string_text` holds one.
pub open spec fn json_unescaped(t: Seq<char>) -> Option<Seq<char>>
    decreases t.len(),
{
    if t.len() == 0 {
        Some(Seq::empty())
    } else if t[0] == '\\' {
        if t.len() < 2 {
            None
        } else if t[1] == 'u' {
            if t.len() < 6 {
                None
            } else {
                match (hex_value(t[2]), hex_value(t[3]), hex_value(t[4]), hex_value(t[5])) {
                    (Some(a), Some(b), Some(c), Some(d)) => {
                        let code = ((a * 16 + b) * 16 + c) * 16 + d;
                        if code < 0xd800 || code > 0xdfff {
                            read_on(code as char, json_unescaped(t.skip(6)))
                        } else {
                            None
                        }
                    },
                    _ => None,
                }
            }
        } else {
            match json_letter(t[1]) {
                Some(c) => read_on(c, json_unescaped(t.skip(2))),
                None => None,
            }
        }
    } else if t[0] == '"' || (t[0] as int) < 0x20 {
        None
    } else {
        read_on(t[0], json_unescaped(t.skip(1)))
    }
}

/// What a reader of JSON reads from a string literal: what stands between
/// its two quotes.
pub open spec fn json_read(literal: Seq<char>) -> Option<Seq<char>> {
    if literal.len() >= 2 && literal[0] == '"' && literal.last() == '"' {
        json_unescaped(literal.subrange(1, literal.len() - 1))
    } else {
        None
    }
}

/// The code of a character is not negative.
proof fn lemma_char_code(c: char)
    ensures
        0 <= c as int,
{
}

/// A hexadecimal digit has the value that it was written for.
pub proof fn lemma_hex_digit_value(d: int)
    requires
        0 <= d < 16,
    ensures
        hex_value(hex_digit(d)) == Some(d),
{
    if d == 0 {
    } else if d == 1 {
    } else if d == 2 {
    } else if d == 3 {
    } else if d == 4 {
    } else if d == 5 {
    } else if d == 6 {
    } else if d == 7 {
    } else if d == 8 {
    } else if d == 9 {
    } else if d == 10 {
    } else if d == 11 {
    } else if d == 12 {
    } else if d == 13 {
    } else if d == 14 {
    } else {
    }
}

/// The escaped form of a text reads back as the text.
pub proof fn lemma_escaped_reads_back(s: Seq<char>)
    ensures
        json_unescaped(json_escaped(s)) == Some(s),
    decreases s.len(),
{
    if s.len() == 0 {
        assert(s =~= Seq::<char>::empty());
    } else {
        let c = s[0];
        let code = c as int;
        let rest = json_escaped(s.skip(1));
        let t = json_escaped(s);
        lemma_escaped_reads_back(s.skip(1));
        assert(t == json_escape(c) + rest);
        assert(seq![c] + s.skip(1) =~= s);
        if c == '"' || c == '\\' || code == 0x08 || code == 0x09 || code == 0x0a || code == 0x0c
            || code == 0x0d {
            assert(json_escape(c).len() == 2);
            assert(t[0] == '\\');
            assert(t[1] == json_escape(c)[1]);
            assert(t.skip(2) =~= rest);
            assert(json_letter(t[1]) == Some(c));
        } else if code < 0x20 {
            let high = code / 16;
            let low = code % 16;
            assert(json_escape(c).len() == 6);
            assert(t[0] == '\\' && t[1] == 'u' && t[2] == '0' && t[3] == '0');
            assert(t[4] == hex_digit(high) && t[5] == hex_digit(low));
            assert(hex_value('0') == Some(0int));
            lemma_char_code(c);
            assert(0 <= code < 0x20);
            assert(0 <= high < 16 && 0 <= low < 16 && high * 16 + low == code);
            lemma_hex_digit_value(high);
            lemma_hex_digit_value(low);
            assert(((0 * 16 + 0) * 16 + high) * 16 + low == code);
            assert(code as char == c);
            assert(t.skip(6) =~= rest);
        } else {
            assert(json_escape(c) =~= seq![c]);
            assert(t[0] == c);
            assert(t.skip(1) =~= rest);
        }
    }
}

/// The literal of a text reads back as the text: a reader of JSON gets
/// from the mod list file the names that were written to it.
pub proof fn lemma_literal_reads_back(s: Seq<char>)
    ensures
        json_read(json_string_text(s)) == Some(s),
{
    lemma_escaped_reads_back(s);
    let literal = json_string_text(s);
    assert(literal.subrange(1, literal.len() - 1) =~= json_escaped(s));
}

} // verus!
