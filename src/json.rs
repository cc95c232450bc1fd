//! The calls into serde_json that the codec relies on.
use vstd::prelude::*;

verus! {

/// Whether serde_json accepts the characters as one JSON document.
pub uninterp spec fn json_text_valid(s: Seq<char>) -> bool;

/// Whether serde_json accepts the bytes as one JSON document.
pub uninterp spec fn json_bytes_valid(b: Seq<u8>) -> bool;

/// The unsigned integer serde_json reads from the member `key` of the
/// JSON object in the bytes, if there is one.
pub uninterp spec fn json_member_u64(b: Seq<u8>, key: Seq<char>) -> Option<u64>;

/// The characters of the string serde_json reads from the member `key` of the
/// JSON object in the bytes, if that member is a string.
pub uninterp spec fn json_member_str(b: Seq<u8>, key: Seq<char>) -> Option<Seq<char>>;

/// The compact JSON text serde_json writes back for the member `key` of the
/// JSON object in the bytes, if there is such a member.
pub uninterp spec fn json_member_text(b: Seq<u8>, key: Seq<char>) -> Option<Seq<char>>;

/// The characters of an optional string.
pub open spec fn opt_view(o: Option<String>) -> Option<Seq<char>> {
    match o {
        Some(s) => Some(s@),
        None => None,
    }
}

/// A lowercase hexadecimal digit.
pub open spec fn hex_digit(d: nat) -> char {
    if d < 10 {
        ((d + 48) as u8) as char
    } else {
        ((d + 87) as u8) as char
    }
}

/// How one character is written inside a JSON string: the quote and the
/// backslash are escaped, backspace, tab, line feed, form feed and carriage
/// return get their short escapes, other control characters below 0x20 are
/// written as `\u00xx`, and every other character stands as it is.
pub open spec fn escaped_char(c: char) -> Seq<char> {
    if c == '"' {
        seq!['\\', '"']
    } else if c == '\\' {
        seq!['\\', '\\']
    } else if c == '\u{8}' {
        seq!['\\', 'b']
    } else if c == '\t' {
        seq!['\\', 't']
    } else if c == '\n' {
        seq!['\\', 'n']
    } else if c == '\u{c}' {
        seq!['\\', 'f']
    } else if c == '\r' {
        seq!['\\', 'r']
    } else if (c as u32) < 32 {
        seq!['\\', 'u', '0', '0', hex_digit((c as u32) as nat / 16), hex_digit((c as u32) as nat % 16)]
    } else {
        seq![c]
    }
}

/// The characters of a string with each one escaped.
pub open spec fn escaped(s: Seq<char>) -> Seq<char>
    decreases s.len(),
{
    if s.len() == 0 {
        Seq::empty()
    } else {
        escaped(s.drop_last()) + escaped_char(s.last())
    }
}

/// The compact JSON string literal for the characters: quotes around the
/// escaped characters.
pub open spec fn json_string_text(s: Seq<char>) -> Seq<char> {
    seq!['"'] + escaped(s) + seq!['"']
}

/// Relies on `serde_json::from_str::<Value>`: it succeeds exactly on valid JSON text.
#[verifier::external_body]
pub(crate) fn is_json_text(s: &str) -> (r: bool)
    ensures
        r == json_text_valid(s@),
{
    serde_json::from_str::<serde_json::Value>(s).is_ok()
}

/// Relies on `serde_json::from_slice::<Value>`: it succeeds exactly on valid JSON bytes.
#[verifier::external_body]
pub(crate) fn is_json_bytes(b: &[u8]) -> (r: bool)
    ensures
        r == json_bytes_valid(b@),
{
    serde_json::from_slice::<serde_json::Value>(b).is_ok()
}

/// Relies on `serde_json::from_slice::<Value>`, `Value::get` and `Value::as_u64`:
/// the member as an unsigned integer, read from the bytes alone.
#[verifier::external_body]
pub(crate) fn member_u64(b: &[u8], key: &str) -> (r: Option<u64>)
    ensures
        r == json_member_u64(b@, key@),
{
    let v: serde_json::Value = serde_json::from_slice(b).ok()?;
    v.get(key)?.as_u64()
}

/// Relies on `serde_json::from_slice::<Value>`, `Value::get` and `Value::as_str`:
/// the member as a string, read from the bytes alone.
#[verifier::external_body]
pub(crate) fn member_str(b: &[u8], key: &str) -> (r: Option<String>)
    ensures
        opt_view(r) == json_member_str(b@, key@),
{
    let v: serde_json::Value = serde_json::from_slice(b).ok()?;
    v.get(key)?.as_str().map(String::from)
}

/// Relies on `serde_json::from_slice::<Value>`, `Value::get` and the compact
/// `Display` of `Value`: the member written back as JSON text, read from the bytes alone.
#[verifier::external_body]
pub(crate) fn member_text(b: &[u8], key: &str) -> (r: Option<String>)
    ensures
        opt_view(r) == json_member_text(b@, key@),
{
    let v: serde_json::Value = serde_json::from_slice(b).ok()?;
    Some(v.get(key)?.to_string())
}

/// Relies on the compact `Display` of `serde_json::Value::String`, which writes
/// the string through serde_json's escape table.
#[verifier::external_body]
pub(crate) fn quote_json_string(s: &str) -> (r: String)
    ensures
        r@ == json_string_text(s@),
{
    serde_json::Value::String(String::from(s)).to_string()
}

} // verus!
