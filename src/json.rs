//! The JSON reads and writes this client needs, each one call into serde_json.

use vstd::prelude::*;

verus! {

/// What serde_json reports when `text` is not a JSON document; `None` when it is one.
pub uninterp spec fn json_syntax_error_of(text: Seq<char>) -> Option<Seq<char>>;

/// The string member `key` of the JSON object `text`, if it has one.
pub uninterp spec fn json_str_member_of(text: Seq<char>, key: Seq<char>) -> Option<Seq<char>>;

/// The boolean member `key` of the JSON object `text`, if it has one.
pub uninterp spec fn json_bool_member_of(text: Seq<char>, key: Seq<char>) -> Option<bool>;

/// The member `key` of the JSON object `text`, if it is an integer that fits in `u128`.
pub uninterp spec fn json_u128_member_of(text: Seq<char>, key: Seq<char>) -> Option<u128>;

/// A lower-case hexadecimal digit.
pub open spec fn hex_digit(d: nat) -> char {
    if d < 10 { ((d + 48) as u32) as char } else { ((d + 87) as u32) as char }
}

/// How one character is written inside a JSON string: quote and backslash
/// escaped, the five short control escapes, other control characters as
/// `\u00XX`, everything else as it is.
pub open spec fn json_escape(c: char) -> Seq<char> {
    if c == '"' {
        seq!['\\', '"']
    } else if c == '\\' {
        seq!['\\', '\\']
    } else if c == '\x08' {
        seq!['\\', 'b']
    } else if c == '\t' {
        seq!['\\', 't']
    } else if c == '\n' {
        seq!['\\', 'n']
    } else if c == '\x0C' {
        seq!['\\', 'f']
    } else if c == '\r' {
        seq!['\\', 'r']
    } else if (c as u32) < 0x20 {
        seq!['\\', 'u', '0', '0', hex_digit((c as u32 / 16) as nat), hex_digit((c as u32 % 16) as nat)]
    } else {
        seq![c]
    }
}

pub open spec fn json_escaped(s: Seq<char>) -> Seq<char>
    decreases s.len(),
{
    if s.len() == 0 {
        Seq::empty()
    } else {
        json_escaped(s.drop_last()) + json_escape(s.last())
    }
}

/// `s` written as a JSON string literal.
pub open spec fn json_quoted_text(s: Seq<char>) -> Seq<char> {
    seq!['"'] + json_escaped(s) + seq!['"']
}

pub open spec fn opt_view(o: Option<String>) -> Option<Seq<char>> {
    match o {
        Some(s) => Some(s@),
        None => None,
    }
}

/// Relies on serde_json::from_str into a `serde_json::Value`: the message of
/// the error it returns, which depends on the text alone.
#[verifier::external_body]
pub(crate) fn json_syntax_error(text: &str) -> (r: Option<String>)
    ensures
        opt_view(r) == json_syntax_error_of(text@),
{
    serde_json::from_str::<serde_json::Value>(text).err().map(|e| e.to_string())
}

/// Relies on serde_json::from_str into a `serde_json::Value`, then
/// `Value::get` and `Value::as_str`: a member read from a valid document only.
#[verifier::external_body]
pub(crate) fn json_str_member(text: &str, key: &str) -> (r: Option<String>)
    ensures
        opt_view(r) == json_str_member_of(text@, key@),
        json_syntax_error_of(text@) is Some ==> r is None,
{
    let v: serde_json::Value = serde_json::from_str(text).ok()?;
    v.get(key)?.as_str().map(|s| s.to_string())
}

/// Relies on serde_json::from_str into a `serde_json::Value`, then
/// `Value::get` and `Value::as_bool`: a member read from a valid document only.
#[verifier::external_body]
pub(crate) fn json_bool_member(text: &str, key: &str) -> (r: Option<bool>)
    ensures
        r == json_bool_member_of(text@, key@),
        json_syntax_error_of(text@) is Some ==> r is None,
{
    let v: serde_json::Value = serde_json::from_str(text).ok()?;
    v.get(key)?.as_bool()
}

/// Relies on serde_json::from_str into a `serde_json::Value`, then
/// `Value::get` and `Number::as_u128`, with the `arbitrary_precision`
/// feature so that integers above `u64::MAX` keep their digits: a member
/// read from a valid document only.
#[verifier::external_body]
pub(crate) fn json_u128_member(text: &str, key: &str) -> (r: Option<u128>)
    ensures
        r == json_u128_member_of(text@, key@),
        json_syntax_error_of(text@) is Some ==> r is None,
{
    let v: serde_json::Value = serde_json::from_str(text).ok()?;
    match v.get(key)? {
        serde_json::Value::Number(n) => n.as_u128(),
        _ => None,
    }
}

/// Relies on serde_json::to_string of a `str`, which writes a JSON string
/// literal with the escapes of `json_escape`, and cannot fail for it.
#[verifier::external_body]
pub(crate) fn json_quoted(s: &str) -> (r: String)
    ensures
        r@ == json_quoted_text(s@),
{
    serde_json::to_string(s).unwrap_or_default()
}

} // verus!
