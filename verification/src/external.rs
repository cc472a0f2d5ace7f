//! Calls into std and outside crates, each with the contract that the
//! rest of the library relies on.

use vstd::prelude::*;

verus! {

/// The view of an optional string.
pub open spec fn opt_view(o: Option<String>) -> Option<Seq<char>> {
    match o {
        Some(s) => Some(s@),
        None => None,
    }
}

/// The lower-case hexadecimal digit of `n` (0 <= n < 16).
pub open spec fn hex_lower(n: int) -> char {
    seq!['0', '1', '2', '3', '4', '5', '6', '7', '8', '9', 'a', 'b', 'c', 'd', 'e', 'f'][n]
}

/// The upper-case hexadecimal digit of `n` (0 <= n < 16).
pub open spec fn hex_upper(n: int) -> char {
    seq!['0', '1', '2', '3', '4', '5', '6', '7', '8', '9', 'A', 'B', 'C', 'D', 'E', 'F'][n]
}

/// How one character is written inside a JSON string.
pub open spec fn json_escape_char(c: char) -> Seq<char> {
    if c == '"' {
        seq!['\\', '"']
    } else if c == '\\' {
        seq!['\\', '\\']
    } else if c == '\u{8}' {
        seq!['\\', 'b']
    } else if c == '\t' {
        seq!['\\', 't']
    } else if c == '\n' {
        seq!['\\', 'n']
    } else if c == '\u{c}' {
        seq!['\\', 'f']
    } else if c == '\r' {
        seq!['\\', 'r']
    } else if (c as u32) < 0x20 {
        seq!['\\', 'u', '0', '0', hex_lower((c as int) / 16), hex_lower((c as int) % 16)]
    } else {
        seq![c]
    }
}

/// The characters of `s` escaped for a JSON string.
pub open spec fn json_escape(s: Seq<char>) -> Seq<char>
    decreases s.len(),
{
    if s.len() == 0 {
        seq![]
    } else {
        json_escape(s.drop_last()) + json_escape_char(s.last())
    }
}

/// `s` as a JSON string literal.
pub open spec fn json_string(s: Seq<char>) -> Seq<char> {
    seq!['"'] + json_escape(s) + seq!['"']
}

/// How one character is written inside a TOML basic string.
pub open spec fn toml_escape_char(c: char) -> Seq<char> {
    if c == '\u{8}' {
        seq!['\\', 'b']
    } else if c == '\t' {
        seq!['\\', 't']
    } else if c == '\n' {
        seq!['\\', 'n']
    } else if c == '\u{c}' {
        seq!['\\', 'f']
    } else if c == '\r' {
        seq!['\\', 'r']
    } else if c == '"' {
        seq!['\\', '"']
    } else if c == '\\' {
        seq!['\\', '\\']
    } else if (c as u32) <= 0x1f || (c as u32) == 0x7f {
        seq!['\\', 'u', '0', '0', hex_upper((c as int) / 16), hex_upper((c as int) % 16)]
    } else {
        seq![c]
    }
}

/// The characters of `s` escaped for a TOML basic string.
pub open spec fn toml_escape(s: Seq<char>) -> Seq<char>
    decreases s.len(),
{
    if s.len() == 0 {
        seq![]
    } else {
        toml_escape(s.drop_last()) + toml_escape_char(s.last())
    }
}

/// A key that TOML writes without quotes.
pub open spec fn is_bare_key(k: Seq<char>) -> bool {
    &&& k.len() > 0
    &&& forall|i: int|
        0 <= i < k.len() ==> {
            let c = #[trigger] k[i];
            ('a' <= c <= 'z') || ('A' <= c <= 'Z') || ('0' <= c <= '9') || c == '-' || c == '_'
        }
}

/// The TOML document holding the single entry `key = "value"`.
pub open spec fn toml_entry_doc(key: Seq<char>, value: Seq<char>) -> Seq<char> {
    key + seq![' ', '=', ' ', '"'] + toml_escape(value) + seq!['"', '\n']
}

/// The result of expanding a leading `~` of `input` with the home directory `home`.
pub open spec fn tilde_expanded(input: Seq<char>, home: Option<Seq<char>>) -> Seq<char> {
    if input.len() > 0 && input[0] == '~' && (input.len() == 1 || input[1] == '/') && home is Some {
        home->0 + input.drop_first()
    } else {
        input
    }
}

/// What std's `Debug` writes for a string: the string in double quotes,
/// with quotes, backslashes and non-printable characters escaped.
pub uninterp spec fn str_debug(s: Seq<char>) -> Seq<char>;

/// The extension that std's `Path::extension` finds in `path`, if any.
pub uninterp spec fn path_extension_of(path: Seq<char>) -> Option<Seq<char>>;

/// Calls `serde_json::to_string` on a string slice. Its source writes the
/// string between double quotes, escapes `"` and `\` with a backslash, writes
/// `\b \t \n \f \r` for those control characters and `\u00xx` (lower-case hex)
/// for the other characters below U+0020, and copies every other character.
/// Serialising a string slice does not fail.
#[verifier::external_body]
pub(crate) fn json_quote(s: &str) -> (r: String)
    ensures
        r@ == json_string(s@),
{
    match serde_json::to_string(s) {
        Ok(j) => j,
        Err(_) => String::new(),
    }
}

/// Calls `format!("{:?}", s)`, std's `Debug` for a string slice. The result
/// is named by `str_debug`; nothing more about it is claimed.
#[verifier::external_body]
pub(crate) fn debug_quote(s: &str) -> (r: String)
    ensures
        r@ == str_debug(s@),
{
    format!("{:?}", s)
}

/// Calls `shellexpand::tilde_with_context` with a home directory given as a
/// value. Its source replaces a leading `~` that is followed by nothing or by
/// `/` with the home directory when there is one, and returns the input
/// unchanged otherwise. On Windows it also expands `~\`; for an input that
/// starts with `~\` nothing is claimed here.
#[verifier::external_body]
pub(crate) fn expand_tilde(input: &str, home: Option<String>) -> (r: String)
    ensures
        !(input@.len() > 1 && input@[0] == '~' && input@[1] == '\\') ==> r@ == tilde_expanded(
            input@,
            opt_view(home),
        ),
{
    shellexpand::tilde_with_context(input, move || home).into_owned()
}

/// Calls std's `Path::extension` on `path` and returns the extension as a
/// string. The result is named by `path_extension_of`.
#[verifier::external_body]
pub(crate) fn path_extension(path: &str) -> (r: Option<String>)
    ensures
        opt_view(r) == path_extension_of(path@),
{
    match std::path::Path::new(path).extension() {
        Some(e) => match e.to_str() {
            Some(t) => Some(t.to_string()),
            None => None,
        },
        None => None,
    }
}

/// Calls `toml::to_string` on a map with the single entry `key -> value`.
/// For a key made of ASCII letters, digits, `-` and `_`, the source of toml
/// 0.5 writes the key bare, then ` = `, then the value as a basic string
/// (escaping `\b \t \n \f \r " \` and writing other control characters as
/// `\u00XX`), then a newline. Serialising a map of strings does not fail.
#[verifier::external_body]
pub(crate) fn toml_entry(key: &str, value: &str) -> (r: String)
    requires
        is_bare_key(key@),
    ensures
        r@ == toml_entry_doc(key@, value@),
{
    let mut table = std::collections::BTreeMap::new();
    table.insert(key.to_string(), value.to_string());
    match toml::to_string(&table) {
        Ok(t) => t,
        Err(_) => String::new(),
    }
}

/// Calls std's `String::push`, which appends one character.
#[verifier::external_body]
pub(crate) fn push_char(s: &mut String, c: char)
    ensures
        final(s)@ == old(s)@.push(c),
{
    s.push(c)
}

/// Calls std's `String::pop`, which removes and returns the last character,
/// or returns `None` for an empty string.
#[verifier::external_body]
pub(crate) fn pop_char(s: &mut String) -> (r: Option<char>)
    ensures
        old(s)@.len() == 0 ==> r is None && final(s)@ == old(s)@,
        old(s)@.len() > 0 ==> r == Some(old(s)@.last()) && final(s)@ == old(s)@.drop_last(),
{
    s.pop()
}

} // verus!
