use vstd::prelude::*;
use serde_json::Value;
use crate::text::decimal;

verus! {

/// `serde_json::Value`: a JSON value, opaque to the verifier.
#[verifier::external_type_specification]
#[verifier::external_body]
pub struct ExJsonValue(Value);

/// `serde_json::Error`: why a value could not be written or read as JSON.
#[verifier::external_type_specification]
#[verifier::external_body]
pub struct ExJsonError(serde_json::Error);

/// What is read of one member of a JSON object.
pub struct JsonMember {
    /// The member in compact JSON notation, as `Display` prints it.
    pub text: Seq<char>,
    /// The member's characters, where it is a JSON string.
    pub string: Option<Seq<char>>,
    /// The member's value, where it is an integer that fits `u64`.
    pub unsigned: Option<u64>,
}

/// The members of a JSON object by their keys; no members for a value that
/// is not an object.
pub uninterp spec fn json_members(value: Value) -> Map<Seq<char>, JsonMember>;

/// The JSON notation of the member `key`, where `value` has one.
pub open spec fn json_member_text(value: Value, key: Seq<char>) -> Option<Seq<char>> {
    if json_members(value).contains_key(key) {
        Some(json_members(value)[key].text)
    } else {
        None
    }
}

/// Looks the member `key` up with `serde_json::Value::get`, which finds it
/// in an object and finds nothing in any other value, and prints it with the
/// value's `Display`, which writes compact JSON.
#[verifier::external_body]
pub(crate) fn member_text(value: &Value, key: &str) -> (r: Option<String>)
    ensures
        r.deep_view() == (if json_members(*value).contains_key(key@) {
            Some(json_members(*value)[key@].text)
        } else {
            None
        }),
{
    match value.get(key) {
        Some(member) => Some(member.to_string()),
        None => None,
    }
}

/// The characters of the member `key`, where `value` has one and it is a
/// JSON string.
pub open spec fn json_member_string(value: Value, key: Seq<char>) -> Option<Seq<char>> {
    if json_members(value).contains_key(key) {
        json_members(value)[key].string
    } else {
        None
    }
}

/// The member `key` as a number, where `value` has one and it is an integer
/// that fits `u64`.
pub open spec fn json_member_unsigned(value: Value, key: Seq<char>) -> Option<u64> {
    if json_members(value).contains_key(key) {
        json_members(value)[key].unsigned
    } else {
        None
    }
}

/// Looks the member `key` up with `serde_json::Value::get` and reads it with
/// `Value::as_str`, which gives the characters of a JSON string and nothing
/// for any other value.
#[verifier::external_body]
pub(crate) fn member_string(value: &Value, key: &str) -> (r: Option<String>)
    ensures
        r.deep_view() == (if json_members(*value).contains_key(key@) {
            json_members(*value)[key@].string
        } else {
            None
        }),
{
    match value.get(key) {
        Some(member) => match member.as_str() {
            Some(text) => Some(text.to_owned()),
            None => None,
        },
        None => None,
    }
}

/// Looks the member `key` up with `serde_json::Value::get` and reads it with
/// `Value::as_u64`, which gives an integer that fits `u64` and nothing for
/// any other value.
#[verifier::external_body]
pub(crate) fn member_unsigned(value: &Value, key: &str) -> (r: Option<u64>)
    ensures
        r == (if json_members(*value).contains_key(key@) {
            json_members(*value)[key@].unsigned
        } else {
            None
        }),
{
    match value.get(key) {
        Some(member) => member.as_u64(),
        None => None,
    }
}

/// The JSON notation of the string `text`: in double quotes, escaped.
pub uninterp spec fn json_string_literal(text: Seq<char>) -> Seq<char>;

/// No character of `text` is escaped in a JSON string: none is a double
/// quote, a backslash or a control character below the space.
pub open spec fn is_plain_json_text(text: Seq<char>) -> bool {
    forall|i: int|
        0 <= i < text.len() ==> (#[trigger] text[i]) as u32 != 0x22 && text[i] as u32 != 0x5C
            && text[i] as u32 >= 0x20
}

/// `text` between double quotes.
pub open spec fn json_quoted(text: Seq<char>) -> Seq<char> {
    "\""@ + text + "\""@
}

/// Writes `text` as a JSON string with `serde_json::to_string`. Writing a
/// string into memory has no way to fail, so the result is always `Ok`; what
/// is written depends on `text` alone. A text in which nothing is escaped
/// is written as it is, between double quotes.
#[verifier::external_body]
pub(crate) fn string_literal_text(text: &str) -> (r: Result<String, serde_json::Error>)
    ensures
        r is Ok,
        r matches Ok(written) ==> written@ == json_string_literal(text@),
        r matches Ok(written) ==> (is_plain_json_text(text@) ==> written@ == json_quoted(text@)),
{
    serde_json::to_string(text)
}

/// The compact JSON notation of the object whose one member `key` is the
/// number `n`: the key as a JSON string, a colon and the decimal numeral, in
/// braces.
pub open spec fn json_number_object(key: Seq<char>, n: u64) -> Seq<char> {
    "{"@ + json_string_literal(key) + ":"@ + decimal(n as nat) + "}"@
}

/// Builds the object whose one member `key` is the number `n` (a
/// `serde_json::Map` with one `insert`) and prints it with the value's
/// `Display`, which writes compact JSON: an opening brace, the key written
/// as `serde_json::to_string` writes a string, a colon, the number in
/// decimal digits, a closing brace. A key in which nothing is escaped is
/// written as it is, between double quotes.
#[verifier::external_body]
pub(crate) fn number_object_text(key: &str, n: u64) -> (r: String)
    ensures
        r@ == json_number_object(key@, n),
        is_plain_json_text(key@) ==> r@ == "{"@ + json_quoted(key@) + ":"@ + decimal(n as nat)
            + "}"@,
{
    let mut members = serde_json::Map::new();
    members.insert(key.to_owned(), Value::from(n));
    Value::Object(members).to_string()
}

/// The message of a `serde_json::Error`, as its `Display` prints it.
/// Nothing is claimed of the text.
#[verifier::external_body]
pub(crate) fn error_text(error: &serde_json::Error) -> (r: String)
{
    error.to_string()
}

} // verus!
