//! JSON values of `serde_json`, seen through a mathematical model.

use vstd::prelude::*;

verus! {

/// What a JSON value holds. Numbers other than unsigned integers that fit 64
/// bits are not told apart.
pub enum JsonModel {
    Null,
    Bool(bool),
    Unsigned(u64),
    OtherNumber,
    Text(Seq<char>),
    List(Seq<JsonModel>),
    Object(Map<Seq<char>, JsonModel>),
}

#[verifier::external_type_specification]
#[verifier::external_body]
pub struct ExJsonValue(serde_json::Value);

#[verifier::external_type_specification]
#[verifier::external_body]
#[verifier::reject_recursive_types(K)]
#[verifier::reject_recursive_types(V)]
pub struct ExJsonMap<K, V>(serde_json::Map<K, V>);

/// What a `serde_json::Value` holds.
pub uninterp spec fn json_view(value: serde_json::Value) -> JsonModel;

/// The fields that a `serde_json::Map` holds, by name.
pub uninterp spec fn object_view(fields: serde_json::Map<String, serde_json::Value>) -> Map<
    Seq<char>,
    JsonModel,
>;

/// The value that `serde_json` reads from a text; `None` for a text that is
/// not one JSON value.
pub uninterp spec fn json_text_value(text: Seq<char>) -> Option<JsonModel>;

/// The fields of an object without fields.
pub open spec fn no_fields() -> Map<Seq<char>, JsonModel> {
    Map::empty()
}

/// The field `key` of a JSON object; `None` for a value that is no object or
/// has no such field.
pub open spec fn json_field(value: JsonModel, key: Seq<char>) -> Option<JsonModel> {
    match value {
        JsonModel::Object(fields) => if fields.contains_key(key) {
            Some(fields[key])
        } else {
            None
        },
        _ => None,
    }
}

/// The number that a JSON value is, where it is an unsigned integer.
pub open spec fn json_unsigned(value: JsonModel) -> Option<u64> {
    match value {
        JsonModel::Unsigned(n) => Some(n),
        _ => None,
    }
}

/// The text that a JSON value is, where it is a string.
pub open spec fn json_text(value: JsonModel) -> Option<Seq<char>> {
    match value {
        JsonModel::Text(s) => Some(s),
        _ => None,
    }
}

/// Parses with `serde_json::from_str` into a `Value`. The result holds what
/// `json_text_value` names, and is `None` where `from_str` fails.
#[verifier::external_body]
pub(crate) fn parse_json(text: &str) -> (value: Option<serde_json::Value>)
    ensures
        match value {
            Some(v) => json_text_value(text@) == Some(json_view(v)),
            None => json_text_value(text@) is None,
        },
{
    serde_json::from_str::<serde_json::Value>(text).ok()
}

/// `serde_json::Value::get` with a string index: the field of that name if the
/// value is an object that has it, else `None`.
#[verifier::external_body]
pub(crate) fn get_field<'a>(value: &'a serde_json::Value, key: &str) -> (field: Option<
    &'a serde_json::Value,
>)
    ensures
        match field {
            Some(f) => json_field(json_view(*value), key@) == Some(json_view(*f)),
            None => json_field(json_view(*value), key@) is None,
        },
{
    value.get(key)
}

/// `serde_json::Value::as_u64`: the number if the value is an unsigned integer
/// of at most 64 bits, else `None`.
#[verifier::external_body]
pub(crate) fn as_unsigned(value: &serde_json::Value) -> (number: Option<u64>)
    ensures
        number == json_unsigned(json_view(*value)),
{
    value.as_u64()
}

/// `serde_json::Value::as_str`, copied into a `String`: the text if the value
/// is a string, else `None`.
#[verifier::external_body]
pub(crate) fn as_text(value: &serde_json::Value) -> (text: Option<String>)
    ensures
        match text {
            Some(s) => json_text(json_view(*value)) == Some(s@),
            None => json_text(json_view(*value)) is None,
        },
{
    value.as_str().map(String::from)
}

/// `serde_json::Map::new`: a map without fields.
#[verifier::external_body]
pub(crate) fn new_object() -> (fields: serde_json::Map<String, serde_json::Value>)
    ensures
        object_view(fields) == no_fields(),
{
    serde_json::Map::new()
}

/// `serde_json::Map::insert`: the field is added, or replaced where the map
/// had one of that name.
#[verifier::external_body]
pub(crate) fn insert_field(
    fields: &mut serde_json::Map<String, serde_json::Value>,
    key: &str,
    field: serde_json::Value,
)
    ensures
        object_view(*final(fields)) == object_view(*old(fields)).insert(key@, json_view(field)),
{
    fields.insert(key.to_string(), field);
}

/// `Value::Object`: the JSON object with the fields of a map.
#[verifier::external_body]
pub(crate) fn object_value(fields: serde_json::Map<String, serde_json::Value>) -> (value:
    serde_json::Value)
    ensures
        json_view(value) == JsonModel::Object(object_view(fields)),
{
    serde_json::Value::Object(fields)
}

/// `Value::from` on a `u64`: a JSON number that is this unsigned integer.
#[verifier::external_body]
pub(crate) fn from_unsigned(number: u64) -> (value: serde_json::Value)
    ensures
        json_view(value) == JsonModel::Unsigned(number),
{
    serde_json::Value::from(number)
}

/// `Value::from` on a `&str`: a JSON string of this text.
#[verifier::external_body]
pub(crate) fn from_text(text: &str) -> (value: serde_json::Value)
    ensures
        json_view(value) == JsonModel::Text(text@),
{
    serde_json::Value::from(text)
}

} // verus!
