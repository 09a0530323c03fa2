//! The two things this library asks of JSON: reading a string member of an
//! object, and writing a string literal.
use vstd::prelude::*;

use crate::ident::hex_digits;

verus! {

/// What `serde_json` reads from document `doc` at member `key`: `None` when
/// `doc` is not JSON; `Some(None)` when it is, but holds no string at `key`
/// (no member of that name, a value of another kind, or not an object);
/// `Some(Some(s))` when the member is the string `s`.
pub uninterp spec fn json_string_member(doc: Seq<char>, key: Seq<char>) -> Option<Option<Seq<char>>>;

/// The view of a member read by [`string_member`].
pub open spec fn member_view(m: Option<Option<String>>) -> Option<Option<Seq<char>>> {
    match m {
        None => None,
        Some(None) => Some(None),
        Some(Some(s)) => Some(Some(s@)),
    }
}

/// How a JSON string literal writes one character: `"` and `\` and the
/// control characters below U+0020 are escaped, the six with a short form by
/// that form and the rest as `\u00` and two lowercase hex digits; every other
/// character stands as it is.
pub open spec fn escaped_char(c: char) -> Seq<char> {
    if c == '"' {
        seq!['\\', '"']
    } else if c == '\\' {
        seq!['\\', '\\']
    } else if c == '\u{8}' {
        seq!['\\', 'b']
    } else if c == '\u{c}' {
        seq!['\\', 'f']
    } else if c == '\n' {
        seq!['\\', 'n']
    } else if c == '\r' {
        seq!['\\', 'r']
    } else if c == '\t' {
        seq!['\\', 't']
    } else if (c as u32) < 0x20 {
        seq!['\\', 'u', '0', '0', hex_digits()[(c as u32) as int / 16], hex_digits()[(c as u32) as int % 16]]
    } else {
        seq![c]
    }
}

/// The characters of `s`, each written as a JSON string literal writes it.
pub open spec fn escaped(s: Seq<char>) -> Seq<char>
    decreases s.len(),
{
    if s.len() == 0 {
        Seq::empty()
    } else {
        escaped(s.drop_last()) + escaped_char(s.last())
    }
}

/// The JSON string literal of a text.
pub open spec fn json_quoted(s: Seq<char>) -> Seq<char> {
    seq!['"'] + escaped(s) + seq!['"']
}

/// Relies on `serde_json::from_str` into a `serde_json::Value`, then on
/// `Value::get` and `Value::as_str`.
#[verifier::external_body]
pub(crate) fn string_member(doc: &str, key: &str) -> (r: Option<Option<String>>)
    ensures
        member_view(r) == json_string_member(doc@, key@),
{
    match serde_json::from_str::<serde_json::Value>(doc) {
        Ok(v) => Some(v.get(key).and_then(serde_json::Value::as_str).map(str::to_string)),
        Err(_) => None,
    }
}

/// Relies on `serde_json::to_string` on a `&str`, which does not fail: the
/// text between double quotes, escaped as `format_escaped_str_contents` and
/// `write_char_escape` do.
#[verifier::external_body]
pub(crate) fn quote(s: &str) -> (r: String)
    ensures
        r@ == json_quoted(s@),
{
    match serde_json::to_string(s) {
        Ok(t) => t,
        Err(_) => String::new(),
    }
}

} // verus!
