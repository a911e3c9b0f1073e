use vstd::prelude::*;

verus! {

#[verifier::external_type_specification]
#[verifier::external_body]
pub struct ExJsonError(serde_json::Error);

/// The text of member `key` of the JSON object `doc`; `None` when `doc` is
/// not a JSON object, has no such member, or the member is not a string.
pub uninterp spec fn json_str_at(doc: Seq<char>, key: Seq<char>) -> Option<Seq<char>>;

/// The value of member `key` of the JSON object `doc`; `None` when `doc` is
/// not a JSON object, has no such member, or the member is not a
/// non-negative integer that fits in `u64`.
pub uninterp spec fn json_u64_at(doc: Seq<char>, key: Seq<char>) -> Option<u64>;

/// Relies on serde_json::from_str into a `Value`, then `Value::get` and
/// `Value::as_str`: the text of a string member of a JSON object.
#[verifier::external_body]
pub(crate) fn str_at(doc: &str, key: &str) -> (r: Option<String>)
    ensures
        json_str_at(doc@, key@) == match r {
            Some(s) => Some(s@),
            None => None,
        },
{
    serde_json::from_str::<serde_json::Value>(doc)
        .ok()
        .and_then(|v| v.get(key).and_then(|m| m.as_str()).map(|s| s.to_string()))
}

/// Relies on serde_json::from_str into a `Value`, then `Value::get` and
/// `Value::as_u64`: the value of an integer member of a JSON object.
#[verifier::external_body]
pub(crate) fn u64_at(doc: &str, key: &str) -> (r: Option<u64>)
    ensures
        json_u64_at(doc@, key@) == r,
{
    serde_json::from_str::<serde_json::Value>(doc).ok().and_then(|v| v.get(key).and_then(|m| m.as_u64()))
}

/// The lower-case hexadecimal digit for `d` (meaningful for `0 <= d < 16`).
pub open spec fn hex_digit(d: int) -> char {
    seq!['0', '1', '2', '3', '4', '5', '6', '7', '8', '9', 'a', 'b', 'c', 'd', 'e', 'f'][d]
}

/// How one character stands inside a JSON string literal: quote and
/// backslash are escaped, the control characters below U+0020 take their
/// short escape or `\u00XX`, and every other character stands as itself.
pub open spec fn json_escape(c: char) -> Seq<char> {
    if c == '"' {
        seq!['\\', '"']
    } else if c == '\\' {
        seq!['\\', '\\']
    } else if c == '\u{8}' {
        seq!['\\', 'b']
    } else if c == '\t' {
        seq!['\\', 't']
    } else if c == '\n' {
        seq!['\\', 'n']
    } else if c == '\u{c}' {
        seq!['\\', 'f']
    } else if c == '\r' {
        seq!['\\', 'r']
    } else if (c as u32) < 0x20 {
        seq!['\\', 'u', '0', '0', hex_digit((c as u32 / 16) as int), hex_digit((c as u32 % 16) as int)]
    } else {
        seq![c]
    }
}

/// Each character of `s` escaped, in order.
pub open spec fn json_escaped(s: Seq<char>) -> Seq<char>
    decreases s.len(),
{
    if s.len() == 0 {
        Seq::empty()
    } else {
        json_escaped(s.drop_last()) + json_escape(s.last())
    }
}

/// The JSON string literal of a text: its escaped characters between double
/// quotes.
pub open spec fn json_quoted(s: Seq<char>) -> Seq<char> {
    seq!['"'] + json_escaped(s) + seq!['"']
}

/// Relies on serde_json::to_string on a `str`: the text written as a JSON
/// string literal. It writes into a `Vec`, which cannot fail, so a `str`
/// always serializes.
#[verifier::external_body]
pub(crate) fn quote(s: &str) -> (r: Result<String, serde_json::Error>)
    ensures
        r is Ok,
        r matches Ok(q) ==> q@ == json_quoted(s@),
{
    serde_json::to_string(s)
}

} // verus!
