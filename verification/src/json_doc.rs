//! What a parsed JSON value holds, and the calls that read and write JSON.

use vstd::prelude::*;

verus! {

/// A JSON number, as far as the forecast rules read it.
pub struct JsonNumber {
    /// The number where it is an integer that fits 64 signed bits.
    pub whole: Option<i64>,
    /// The decimal text that the standard library shows for the number taken
    /// as a 64-bit binary fraction.
    pub shown: Seq<char>,
}

/// The part of a JSON value that the forecast rules read.
pub enum JsonItem {
    /// A string.
    Text(Seq<char>),
    /// A number.
    Number(JsonNumber),
    /// An array, in document order.
    List(Seq<JsonItem>),
    /// An object, by key.
    Object(Map<Seq<char>, JsonItem>),
    /// `null`, `true` or `false`.
    Other,
}

/// `serde_json::Value`, taken as opaque: it is read through the calls below only.
#[verifier::external_type_specification]
#[verifier::external_body]
pub struct ExJsonValue(serde_json::Value);

/// `serde_json::Error`, taken as opaque: nothing of it is read.
#[verifier::external_type_specification]
#[verifier::external_body]
pub struct ExJsonError(serde_json::Error);

/// What a `serde_json::Value` holds.
pub uninterp spec fn json_item(v: serde_json::Value) -> JsonItem;

/// The document that `serde_json::from_slice` reads from bytes, or `None`
/// where it rejects them.
pub uninterp spec fn parsed_json(bytes: Seq<u8>) -> Option<JsonItem>;

/// The JSON string literal that `serde_json::to_string` writes for a string:
/// the string between double quotes, with the characters escaped that JSON
/// does not take as they are.
pub uninterp spec fn json_quoted(s: Seq<char>) -> Seq<char>;

/// What each value of a sequence holds, in order.
pub open spec fn json_items(s: Seq<serde_json::Value>) -> Seq<JsonItem> {
    s.map_values(|v: serde_json::Value| json_item(v))
}

/// The entry of an object under a key; `None` for anything but an object,
/// and for an object without that key.
pub open spec fn json_field(t: JsonItem, key: Seq<char>) -> Option<JsonItem> {
    match t {
        JsonItem::Object(m) => if m.dom().contains(key) {
            Some(m[key])
        } else {
            None
        },
        _ => None,
    }
}

/// The value of an integer that fits 64 signed bits; `None` for any other item.
pub open spec fn json_whole(t: JsonItem) -> Option<i64> {
    match t {
        JsonItem::Number(n) => n.whole,
        _ => None,
    }
}

/// The decimal text of a number; `None` for any other item.
pub open spec fn json_shown(t: JsonItem) -> Option<Seq<char>> {
    match t {
        JsonItem::Number(n) => Some(n.shown),
        _ => None,
    }
}

/// Calls `serde_json::from_slice` for a `serde_json::Value`. Trusted: the
/// call accepts exactly the bytes that `parsed_json` has a document for, and
/// the value it returns holds that document.
#[verifier::external_body]
pub(crate) fn json_parse(body: &[u8]) -> (r: Result<serde_json::Value, serde_json::Error>)
    ensures
        match r {
            Ok(v) => parsed_json(body@) == Some(json_item(v)),
            Err(_) => parsed_json(body@) is None,
        },
{
    serde_json::from_slice::<serde_json::Value>(body)
}

/// Calls `serde_json::Value::get` with a string key. Trusted: the call
/// returns the entry under that key where the value is an object that has
/// the key, and `None` otherwise.
#[verifier::external_body]
pub(crate) fn json_get<'a>(v: &'a serde_json::Value, key: &str) -> (r: Option<
    &'a serde_json::Value,
>)
    ensures
        match r {
            Some(e) => json_field(json_item(*v), key@) == Some(json_item(*e)),
            None => json_field(json_item(*v), key@) is None,
        },
{
    v.get(key)
}

/// Calls `serde_json::Value::as_str`. Trusted: the call returns the string
/// of a string value, and `None` for any other value.
#[verifier::external_body]
pub(crate) fn json_as_str<'a>(v: &'a serde_json::Value) -> (r: Option<&'a str>)
    ensures
        match r {
            Some(s) => json_item(*v) == JsonItem::Text(s@),
            None => !(json_item(*v) is Text),
        },
{
    v.as_str()
}

/// Calls `serde_json::Value::as_array`. Trusted: the call returns the
/// elements of an array value in order, and `None` for any other value.
#[verifier::external_body]
pub(crate) fn json_as_array<'a>(v: &'a serde_json::Value) -> (r: Option<
    &'a Vec<serde_json::Value>,
>)
    ensures
        match r {
            Some(a) => json_item(*v) == JsonItem::List(json_items(a@)),
            None => !(json_item(*v) is List),
        },
{
    v.as_array()
}

/// Calls `serde_json::Value::as_i64`. Trusted: the call returns the value of
/// an integer number that fits 64 signed bits, and `None` for any other
/// number and any other value.
#[verifier::external_body]
pub(crate) fn json_as_i64(v: &serde_json::Value) -> (r: Option<i64>)
    ensures
        r == json_whole(json_item(*v)),
{
    v.as_i64()
}

/// Calls `serde_json::Value::as_f64` and shows what it returns with
/// `to_string`. Trusted: the first call returns a binary fraction for every
/// number and `None` for any other value; the text is the one that the
/// number's item carries as `shown`.
#[verifier::external_body]
pub(crate) fn json_number_text(v: &serde_json::Value) -> (r: Option<String>)
    ensures
        match r {
            Some(s) => json_shown(json_item(*v)) == Some(s@),
            None => json_shown(json_item(*v)) is None,
        },
{
    v.as_f64().map(|x| x.to_string())
}

/// Calls `serde_json::to_string` on a string. Trusted: the call does not
/// fail on a string, and returns its JSON string literal.
#[verifier::external_body]
pub(crate) fn json_quote(s: &str) -> (r: String)
    ensures
        r@ == json_quoted(s@),
{
    serde_json::to_string(s).unwrap_or_default()
}

} // verus!
