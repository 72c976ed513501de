//! What a parsed TOML value holds, and the calls that read one.

use vstd::prelude::*;

verus! {

/// The part of a TOML value that the configuration rules read.
pub enum TomlItem {
    /// A string.
    Text(Seq<char>),
    /// An array, in document order.
    List(Seq<TomlItem>),
    /// A table, by key.
    Table(Map<Seq<char>, TomlItem>),
    /// An integer, a float, a boolean or a date.
    Other,
}

/// `toml::Value`, taken as opaque: it is read through the calls below only.
#[verifier::external_type_specification]
#[verifier::external_body]
pub struct ExTomlValue(toml::Value);

/// `toml::de::Error`, taken as opaque: nothing of it is read.
#[verifier::external_type_specification]
#[verifier::external_body]
pub struct ExTomlError(toml::de::Error);

/// What a `toml::Value` holds.
pub uninterp spec fn toml_item(v: toml::Value) -> TomlItem;

/// The document that `toml::from_str` reads from a text, or `None` where it
/// rejects the text.
pub uninterp spec fn parsed_toml(text: Seq<char>) -> Option<TomlItem>;

/// What each value of a sequence holds, in order.
pub open spec fn toml_items(s: Seq<toml::Value>) -> Seq<TomlItem> {
    s.map_values(|v: toml::Value| toml_item(v))
}

/// The entry of a table under a key; `None` for anything but a table, and for
/// a table without that key.
pub open spec fn toml_field(t: TomlItem, key: Seq<char>) -> Option<TomlItem> {
    match t {
        TomlItem::Table(m) => if m.dom().contains(key) {
            Some(m[key])
        } else {
            None
        },
        _ => None,
    }
}

/// Calls `toml::from_str` for a `toml::Value`. Trusted: the call accepts
/// exactly the texts that `parsed_toml` has a document for, and the value it
/// returns holds that document.
#[verifier::external_body]
pub(crate) fn toml_parse(text: &str) -> (r: Result<toml::Value, toml::de::Error>)
    ensures
        match r {
            Ok(v) => parsed_toml(text@) == Some(toml_item(v)),
            Err(_) => parsed_toml(text@) is None,
        },
{
    toml::from_str::<toml::Value>(text)
}

/// Calls `toml::Value::get` with a string key. Trusted: the call returns the
/// entry under that key where the value is a table that has the key, and
/// `None` otherwise.
#[verifier::external_body]
pub(crate) fn toml_get<'a>(v: &'a toml::Value, key: &str) -> (r: Option<&'a toml::Value>)
    ensures
        match r {
            Some(e) => toml_field(toml_item(*v), key@) == Some(toml_item(*e)),
            None => toml_field(toml_item(*v), key@) is None,
        },
{
    v.get(key)
}

/// Calls `toml::Value::as_str`. Trusted: the call returns the string of a
/// string value, and `None` for any other value.
#[verifier::external_body]
pub(crate) fn toml_as_str<'a>(v: &'a toml::Value) -> (r: Option<&'a str>)
    ensures
        match r {
            Some(s) => toml_item(*v) == TomlItem::Text(s@),
            None => !(toml_item(*v) is Text),
        },
{
    v.as_str()
}

/// Calls `toml::Value::as_array`. Trusted: the call returns the elements of
/// an array value in order, and `None` for any other value.
#[verifier::external_body]
pub(crate) fn toml_as_array<'a>(v: &'a toml::Value) -> (r: Option<&'a Vec<toml::Value>>)
    ensures
        match r {
            Some(a) => toml_item(*v) == TomlItem::List(toml_items(a@)),
            None => !(toml_item(*v) is List),
        },
{
    v.as_array()
}

} // verus!
