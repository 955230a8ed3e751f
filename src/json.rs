//! The calls into serde_json that the envelope codec makes. Each reads one
//! thing out of a JSON document given as bytes and hands back plain text.
use vstd::prelude::*;

verus! {

/// The lower-case hexadecimal digit of `d`, below 16.
pub open spec fn hex_digit(d: nat) -> char {
    if d < 10 {
        ((d + 48) as u32) as char
    } else {
        ((d + 87) as u32) as char
    }
}

/// How serde_json writes `c` inside a string literal: `"` and `\` behind a
/// backslash, backspace, tab, line feed, form feed and carriage return by
/// their short escapes, any other character below 0x20 as `\u00XX`, and every
/// other character as it is.
pub open spec fn escaped_char(c: char) -> Seq<char> {
    let n = c as u32;
    if c == '"' {
        seq!['\\', '"']
    } else if c == '\\' {
        seq!['\\', '\\']
    } else if n == 8 {
        seq!['\\', 'b']
    } else if n == 9 {
        seq!['\\', 't']
    } else if n == 10 {
        seq!['\\', 'n']
    } else if n == 12 {
        seq!['\\', 'f']
    } else if n == 13 {
        seq!['\\', 'r']
    } else if n < 0x20 {
        seq!['\\', 'u', '0', '0', hex_digit(n as nat / 16), hex_digit(n as nat % 16)]
    } else {
        seq![c]
    }
}

/// The characters of `s`, each escaped as serde_json escapes it.
pub open spec fn escaped(s: Seq<char>) -> Seq<char>
    decreases s.len(),
{
    if s.len() == 0 {
        Seq::empty()
    } else {
        escaped(s.drop_last()) + escaped_char(s.last())
    }
}

/// The JSON string literal for `s`, quotes included.
pub open spec fn json_quoted(s: Seq<char>) -> Seq<char> {
    seq!['"'] + escaped(s) + seq!['"']
}

/// Whether serde_json reads `b` as one JSON document.
pub uninterp spec fn is_json_document(b: Seq<u8>) -> bool;

/// The text of the string held by member `key` of the JSON document `doc`;
/// `None` where `doc` is no JSON document, no object, or where the member is
/// absent or holds no string.
pub uninterp spec fn json_member_text(doc: Seq<u8>, key: Seq<char>) -> Option<Seq<char>>;

/// The text of the string held by member `key` of the object held by member
/// `outer` of the JSON document `doc`; `None` where any of these is missing
/// or of another kind.
pub uninterp spec fn json_nested_text(doc: Seq<u8>, outer: Seq<char>, key: Seq<char>) -> Option<
    Seq<char>,
>;

/// The compact JSON text that serde_json writes for member `key` of the JSON
/// document `doc` (no whitespace; object keys in serde_json's own order);
/// `None` where `doc` is no JSON document, no object, or the member is absent.
pub uninterp spec fn json_member_compact(doc: Seq<u8>, key: Seq<char>) -> Option<Seq<char>>;

/// The text a string option holds, as characters.
pub open spec fn text_view(o: Option<String>) -> Option<Seq<char>> {
    match o {
        Some(t) => Some(t@),
        None => None,
    }
}

/// Relies on serde_json's `Display` for `Value::String`, which writes `s`
/// through the escape table of `format_escaped_str`.
#[verifier::external_body]
pub(crate) fn quote(s: &str) -> (r: String)
    ensures
        r@ == json_quoted(s@),
{
    serde_json::Value::String(s.to_string()).to_string()
}

/// Relies on serde_json::from_slice: it reads `b` as one JSON document, or
/// fails.
#[verifier::external_body]
pub(crate) fn is_json(b: &Vec<u8>) -> (r: bool)
    ensures
        r == is_json_document(b@),
{
    serde_json::from_slice::<serde_json::Value>(b).is_ok()
}

/// Relies on serde_json::from_slice, `Value::get` and `Value::as_str`: the
/// string at member `key` of the document.
#[verifier::external_body]
pub(crate) fn member_text(doc: &Vec<u8>, key: &str) -> (r: Option<String>)
    ensures
        text_view(r) == json_member_text(doc@, key@),
{
    serde_json::from_slice::<serde_json::Value>(doc)
        .ok()
        .and_then(|v| v.get(key).and_then(|m| m.as_str()).map(|s| s.to_string()))
}

/// Relies on serde_json::from_slice, `Value::get` and `Value::as_str`: the
/// string at member `key` of member `outer` of the document.
#[verifier::external_body]
pub(crate) fn nested_text(doc: &Vec<u8>, outer: &str, key: &str) -> (r: Option<String>)
    ensures
        text_view(r) == json_nested_text(doc@, outer@, key@),
{
    serde_json::from_slice::<serde_json::Value>(doc)
        .ok()
        .and_then(|v| v.get(outer).and_then(|o| o.get(key)).and_then(|m| m.as_str()).map(|s| s.to_string()))
}

/// Relies on serde_json::from_slice, `Value::get` and `Display` for `Value`:
/// the compact JSON text of member `key` of the document.
#[verifier::external_body]
pub(crate) fn member_compact(doc: &Vec<u8>, key: &str) -> (r: Option<String>)
    ensures
        text_view(r) == json_member_compact(doc@, key@),
{
    serde_json::from_slice::<serde_json::Value>(doc).ok().and_then(|v| v.get(key).map(|m| m.to_string()))
}

} // verus!
