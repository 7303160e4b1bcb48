//! JSON values as the library sees them.
//!
//! Payloads travel through the library as `serde_json::Value`. Verus cannot look
//! inside such a value, so the contracts speak of its mathematical content,
//! [`Json`], through [`json_model`]. Every function in this file that touches a
//! `serde_json` item is trusted: its contract restates what the `serde_json`
//! documentation says, and nothing here proves it.

use vstd::prelude::*;

verus! {

/// The mathematical content of a JSON document.
pub enum Json {
    Null,
    Bool(bool),
    /// An integer literal, between `i64::MIN` and `u64::MAX`.
    Integer(int),
    /// Any other number, by the bits of its IEEE-754 double.
    Real(u64),
    Text(Seq<char>),
    Array(Seq<Json>),
    Object(Map<Seq<char>, Json>),
}

/// Trusted: the type `serde_json::Value`. What a value holds is told by
/// [`json_model`] alone.
#[verifier::external_type_specification]
#[verifier::external_body]
pub struct ExJsonValue(serde_json::Value);

/// Trusted: the type `serde_json::Error`, of which nothing is known.
#[verifier::external_type_specification]
#[verifier::external_body]
pub struct ExJsonError(serde_json::Error);

/// Trusted: the type `serde_json::Map`, the fields of a JSON object. What a
/// map holds is told by [`json_fields`] alone.
#[verifier::external_type_specification]
#[verifier::external_body]
#[verifier::reject_recursive_types(K)]
#[verifier::reject_recursive_types(V)]
pub struct ExJsonMap<K, V>(serde_json::Map<K, V>);

/// What a `serde_json::Value` holds.
pub uninterp spec fn json_model(value: serde_json::Value) -> Json;

/// What a `serde_json::Map` holds: its keys, each with the content of its value.
pub uninterp spec fn json_fields(fields: serde_json::Map<String, serde_json::Value>) -> Map<Seq<char>, Json>;

/// The document that `serde_json::from_str` reads from a text, if it reads one.
pub uninterp spec fn json_parsed(text: Seq<char>) -> Option<Json>;

/// What `serde_json::to_string` makes of a document: its compact text, or
/// nothing where the writer gives up.
pub uninterp spec fn json_written(document: Json) -> Option<Seq<char>>;

/// The content of an object without keys.
pub open spec fn no_fields() -> Map<Seq<char>, Json> {
    Map::empty()
}

/// The content of each value of a sequence, in order.
pub open spec fn json_models(values: Seq<serde_json::Value>) -> Seq<Json> {
    values.map_values(|v: serde_json::Value| json_model(v))
}

/// The field `key` of a document: present only in an object that has the key.
pub open spec fn json_field(document: Json, key: Seq<char>) -> Option<Json> {
    match document {
        Json::Object(fields) => if fields.contains_key(key) {
            Some(fields[key])
        } else {
            None
        },
        _ => None,
    }
}

/// The text of a document that is a string.
pub open spec fn json_as_text(document: Json) -> Option<Seq<char>> {
    match document {
        Json::Text(s) => Some(s),
        _ => None,
    }
}

/// The value of a document that is a non-negative integer.
pub open spec fn json_as_u64(document: Json) -> Option<u64> {
    match document {
        Json::Integer(n) => if 0 <= n <= u64::MAX {
            Some(n as u64)
        } else {
            None
        },
        _ => None,
    }
}

/// The value of a document that is an integer which fits `i64`.
pub open spec fn json_as_i64(document: Json) -> Option<i64> {
    match document {
        Json::Integer(n) => if i64::MIN <= n <= i64::MAX {
            Some(n as i64)
        } else {
            None
        },
        _ => None,
    }
}

/// Trusted: `serde_json::from_str::<Value>`. Reading a text is a function of the
/// text alone: it succeeds exactly where [`json_parsed`] holds a document, and
/// the value then has that content.
#[verifier::external_body]
pub(crate) fn parse_value(text: &str) -> (r: Result<serde_json::Value, serde_json::Error>)
    ensures
        match r {
            Ok(value) => json_parsed(text@) == Some(json_model(value)),
            Err(_) => json_parsed(text@).is_none(),
        },
{
    serde_json::from_str::<serde_json::Value>(text)
}

/// Trusted: `Display` of `serde_json::Error`, the message of a failed read.
/// Nothing is claimed of the message.
#[verifier::external_body]
pub(crate) fn error_text(error: &serde_json::Error) -> (message: String) {
    error.to_string()
}

/// Trusted: `serde_json::to_string` on a `Value`. Writing a value is a function
/// of its content alone: it succeeds exactly where [`json_written`] holds a
/// text, and gives that text.
#[verifier::external_body]
pub(crate) fn write_value(value: &serde_json::Value) -> (r: Result<String, serde_json::Error>)
    ensures
        match r {
            Ok(text) => json_written(json_model(*value)) == Some(text@),
            Err(_) => json_written(json_model(*value)).is_none(),
        },
{
    serde_json::to_string(value)
}

/// Trusted: `Value::get` with a string key. It finds a field only in an object,
/// and only under a key that the object has.
#[verifier::external_body]
pub(crate) fn value_field<'a>(value: &'a serde_json::Value, key: &str) -> (r: Option<&'a serde_json::Value>)
    ensures
        match r {
            Some(field) => json_field(json_model(*value), key@) == Some(json_model(*field)),
            None => json_field(json_model(*value), key@).is_none(),
        },
{
    value.get(key)
}

/// Trusted: `Value::as_str`. Only a JSON string has a text.
#[verifier::external_body]
pub(crate) fn value_as_text<'a>(value: &'a serde_json::Value) -> (r: Option<&'a str>)
    ensures
        match r {
            Some(s) => json_as_text(json_model(*value)) == Some(s@),
            None => json_as_text(json_model(*value)).is_none(),
        },
{
    value.as_str()
}

/// Trusted: `Value::as_u64`. Only a non-negative integer is a `u64`.
#[verifier::external_body]
pub(crate) fn value_as_u64(value: &serde_json::Value) -> (r: Option<u64>)
    ensures
        r == json_as_u64(json_model(*value)),
{
    value.as_u64()
}

/// Trusted: `Value::as_i64`. Only an integer that fits is an `i64`.
#[verifier::external_body]
pub(crate) fn value_as_i64(value: &serde_json::Value) -> (r: Option<i64>)
    ensures
        r == json_as_i64(json_model(*value)),
{
    value.as_i64()
}

/// Trusted: `Value::is_null`. Only `null` is null.
#[verifier::external_body]
pub(crate) fn value_is_null(value: &serde_json::Value) -> (r: bool)
    ensures
        r == (json_model(*value) is Null),
{
    value.is_null()
}

/// Trusted: `Clone` of `serde_json::Value`. The copy has the same content.
#[verifier::external_body]
pub(crate) fn clone_value(value: &serde_json::Value) -> (copy: serde_json::Value)
    ensures
        json_model(copy) == json_model(*value),
{
    value.clone()
}

/// Trusted: the variant `Value::Null`.
#[verifier::external_body]
pub(crate) fn null_value() -> (value: serde_json::Value)
    ensures
        json_model(value) == Json::Null,
{
    serde_json::Value::Null
}

/// Trusted: the variant `Value::Bool`.
#[verifier::external_body]
pub(crate) fn bool_value(b: bool) -> (value: serde_json::Value)
    ensures
        json_model(value) == Json::Bool(b),
{
    serde_json::Value::Bool(b)
}

/// Trusted: `Value::from(u64)`, a JSON integer.
#[verifier::external_body]
pub(crate) fn u64_value(n: u64) -> (value: serde_json::Value)
    ensures
        json_model(value) == Json::Integer(n as int),
{
    serde_json::Value::from(n)
}

/// Trusted: `Value::from(i64)`, a JSON integer.
#[verifier::external_body]
pub(crate) fn i64_value(n: i64) -> (value: serde_json::Value)
    ensures
        json_model(value) == Json::Integer(n as int),
{
    serde_json::Value::from(n)
}

/// Trusted: the variant `Value::String`.
#[verifier::external_body]
pub(crate) fn text_value(text: String) -> (value: serde_json::Value)
    ensures
        json_model(value) == Json::Text(text@),
{
    serde_json::Value::String(text)
}

/// Trusted: the variant `Value::Array`. The items keep their order.
#[verifier::external_body]
pub(crate) fn array_value(items: Vec<serde_json::Value>) -> (value: serde_json::Value)
    ensures
        json_model(value) == Json::Array(json_models(items@)),
{
    serde_json::Value::Array(items)
}

/// Trusted: the variant `Value::Object`.
#[verifier::external_body]
pub(crate) fn object_value(fields: serde_json::Map<String, serde_json::Value>) -> (value: serde_json::Value)
    ensures
        json_model(value) == Json::Object(json_fields(fields)),
{
    serde_json::Value::Object(fields)
}

/// Trusted: `Map::new`, a map without keys.
#[verifier::external_body]
pub(crate) fn new_fields() -> (fields: serde_json::Map<String, serde_json::Value>)
    ensures
        json_fields(fields) == no_fields(),
{
    serde_json::Map::new()
}

/// Trusted: `Map::insert`. The key holds the new value afterwards, whether or
/// not it was present; the other keys are untouched.
#[verifier::external_body]
pub(crate) fn insert_field(fields: &mut serde_json::Map<String, serde_json::Value>, key: String, value: serde_json::Value)
    ensures
        json_fields(*final(fields)) == json_fields(*old(fields)).insert(key@, json_model(value)),
{
    fields.insert(key, value);
}

} // verus!
