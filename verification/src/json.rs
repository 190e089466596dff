//! JSON values: their mathematical model, and the `serde_json` operations the
//! codec reads and builds them with.
//!
//! Every function in this module is a thin call into `serde_json` whose
//! contract is stated over [`value_model`] and [`object_model`] and is taken on
//! trust; nothing here is proved.

use vstd::prelude::*;

verus! {

/// `serde_json::Value`, carried as an opaque value.
#[verifier::external_type_specification]
#[verifier::external_body]
pub struct ExValue(serde_json::Value);

/// `serde_json::Map`, carried as an opaque value.
#[verifier::external_type_specification]
#[verifier::external_body]
#[verifier::reject_recursive_types(K)]
#[verifier::reject_recursive_types(V)]
pub struct ExMap<K, V>(serde_json::Map<K, V>);

/// What a JSON number holds: a non-negative integer, a negative integer, or a
/// finite float given by its bit pattern.
pub enum NumberModel {
    PosInt(u64),
    NegInt(i64),
    Float(u64),
}

/// The mathematical content of a JSON value.
pub enum JsonModel {
    Null,
    Bool(bool),
    Number(NumberModel),
    String(Seq<char>),
    Array(Seq<JsonModel>),
    Object(Map<Seq<char>, JsonModel>),
}

/// The content of a `serde_json::Value`.
pub uninterp spec fn value_model(v: serde_json::Value) -> JsonModel;

/// The entries of a `serde_json::Map`, by key.
pub uninterp spec fn object_model(m: serde_json::Map<String, serde_json::Value>) -> Map<
    Seq<char>,
    JsonModel,
>;

/// The value that `serde_json::from_str` reads from a text, if the text is JSON.
pub uninterp spec fn parsed_text(text: Seq<char>) -> Option<JsonModel>;

/// The compact text that `serde_json` prints for a value.
pub uninterp spec fn printed_text(j: JsonModel) -> Seq<char>;

/// The entries of an object without fields.
pub open spec fn empty_object() -> Map<Seq<char>, JsonModel> {
    Map::empty()
}

/// The contents of a run of values, item by item.
pub open spec fn values_model(items: Seq<serde_json::Value>) -> Seq<JsonModel> {
    items.map_values(|v: serde_json::Value| value_model(v))
}

/// `Value::is_null`: whether the value is `null`.
#[verifier::external_body]
pub(crate) fn value_is_null(v: &serde_json::Value) -> (r: bool)
    ensures
        r == (value_model(*v) is Null),
{
    v.is_null()
}

/// `Value::as_bool`: the boolean of a `Bool` value, nothing for any other value.
#[verifier::external_body]
pub(crate) fn value_as_bool(v: &serde_json::Value) -> (r: Option<bool>)
    ensures
        r == match value_model(*v) {
            JsonModel::Bool(b) => Some(b),
            _ => None,
        },
{
    v.as_bool()
}

/// `Value::as_u64`: the integer of a number stored as a non-negative integer,
/// nothing for a negative integer, a float or a value that is no number.
#[verifier::external_body]
pub(crate) fn value_as_u64(v: &serde_json::Value) -> (r: Option<u64>)
    ensures
        r == match value_model(*v) {
            JsonModel::Number(NumberModel::PosInt(n)) => Some(n),
            _ => None,
        },
{
    v.as_u64()
}

/// `Value::as_i64`: the integer of a number stored as an integer, if it lies
/// in the range of `i64`; nothing for a float or a value that is no number.
#[verifier::external_body]
pub(crate) fn value_as_i64(v: &serde_json::Value) -> (r: Option<i64>)
    ensures
        r == match value_model(*v) {
            JsonModel::Number(NumberModel::PosInt(n)) => if n <= i64::MAX {
                Some(n as i64)
            } else {
                None
            },
            JsonModel::Number(NumberModel::NegInt(n)) => Some(n),
            _ => None,
        },
{
    v.as_i64()
}

/// `Value::as_str`: the text of a `String` value, nothing for any other value.
#[verifier::external_body]
pub(crate) fn value_as_str(v: &serde_json::Value) -> (r: Option<&str>)
    ensures
        match value_model(*v) {
            JsonModel::String(s) => r.is_some() && r.unwrap()@ == s,
            _ => r.is_none(),
        },
{
    v.as_str()
}

/// `Value::as_array`: the items of an `Array` value, nothing for any other value.
#[verifier::external_body]
pub(crate) fn value_as_array(v: &serde_json::Value) -> (r: Option<&Vec<serde_json::Value>>)
    ensures
        match value_model(*v) {
            JsonModel::Array(items) => r.is_some() && values_model(r.unwrap()@) == items,
            _ => r.is_none(),
        },
{
    v.as_array()
}

/// `Value::as_object`: the map of an `Object` value, nothing for any other value.
#[verifier::external_body]
pub(crate) fn value_as_object(v: &serde_json::Value) -> (r: Option<
    &serde_json::Map<String, serde_json::Value>,
>)
    ensures
        match value_model(*v) {
            JsonModel::Object(fields) => r.is_some() && object_model(*r.unwrap()) == fields,
            _ => r.is_none(),
        },
{
    v.as_object()
}

/// `Map::get`: the value stored under a key, nothing where the map has no such key.
#[verifier::external_body]
pub(crate) fn object_get<'a>(m: &'a serde_json::Map<String, serde_json::Value>, key: &str) -> (r:
    Option<&'a serde_json::Value>)
    ensures
        r.is_some() == object_model(*m).contains_key(key@),
        r.is_some() ==> value_model(*r.unwrap()) == object_model(*m)[key@],
{
    m.get(key)
}

/// `Map::len`: the number of entries of the map.
#[verifier::external_body]
pub(crate) fn object_len(m: &serde_json::Map<String, serde_json::Value>) -> (r: usize)
    ensures
        r == object_model(*m).len(),
{
    m.len()
}

/// `Map::new`: a map without entries.
#[verifier::external_body]
pub(crate) fn object_new() -> (r: serde_json::Map<String, serde_json::Value>)
    ensures
        object_model(r) == empty_object(),
{
    serde_json::Map::new()
}

/// `Map::insert`: stores a value under a key, in place of the value that the
/// key had before, if any, and leaves every other entry as it was.
#[verifier::external_body]
pub(crate) fn object_insert(
    m: &mut serde_json::Map<String, serde_json::Value>,
    key: String,
    value: serde_json::Value,
)
    ensures
        object_model(*final(m)) == object_model(*old(m)).insert(key@, value_model(value)),
{
    m.insert(key, value);
}

/// `Value::Null`.
#[verifier::external_body]
pub(crate) fn null_value() -> (r: serde_json::Value)
    ensures
        value_model(r) == JsonModel::Null,
{
    serde_json::Value::Null
}

/// `Value::Bool`.
#[verifier::external_body]
pub(crate) fn bool_value(b: bool) -> (r: serde_json::Value)
    ensures
        value_model(r) == JsonModel::Bool(b),
{
    serde_json::Value::Bool(b)
}

/// `Value::from` on a `u64`: a number stored as a non-negative integer.
#[verifier::external_body]
pub(crate) fn u64_value(n: u64) -> (r: serde_json::Value)
    ensures
        value_model(r) == JsonModel::Number(NumberModel::PosInt(n)),
{
    serde_json::Value::from(n)
}

/// `Value::from` on an `i64`: a number stored as a negative integer where
/// the argument is below zero, and as a non-negative integer otherwise.
#[verifier::external_body]
pub(crate) fn i64_value(n: i64) -> (r: serde_json::Value)
    ensures
        value_model(r) == JsonModel::Number(
            if n < 0 {
                NumberModel::NegInt(n)
            } else {
                NumberModel::PosInt(n as u64)
            },
        ),
{
    serde_json::Value::from(n)
}

/// `Value::String`.
#[verifier::external_body]
pub(crate) fn string_value(s: String) -> (r: serde_json::Value)
    ensures
        value_model(r) == JsonModel::String(s@),
{
    serde_json::Value::String(s)
}

/// `Value::Array`.
#[verifier::external_body]
pub(crate) fn array_value(items: Vec<serde_json::Value>) -> (r: serde_json::Value)
    ensures
        value_model(r) == JsonModel::Array(values_model(items@)),
{
    serde_json::Value::Array(items)
}

/// `Value::Object`.
#[verifier::external_body]
pub(crate) fn object_value(m: serde_json::Map<String, serde_json::Value>) -> (r: serde_json::Value)
    ensures
        value_model(r) == JsonModel::Object(object_model(m)),
{
    serde_json::Value::Object(m)
}

/// `Value::clone`: a value with the same content.
pub assume_specification[ <serde_json::Value as Clone>::clone ](v: &serde_json::Value) -> (r:
    serde_json::Value)
    ensures
        value_model(r) == value_model(*v),
;

/// `serde_json::from_str` at `Value`: the value that the text denotes, or
/// nothing where the text is not JSON.
#[verifier::external_body]
pub(crate) fn parse_text(text: &str) -> (r: Option<serde_json::Value>)
    ensures
        match r {
            Some(v) => parsed_text(text@) == Some(value_model(v)),
            None => parsed_text(text@).is_none(),
        },
{
    serde_json::from_str::<serde_json::Value>(text).ok()
}

/// `Value::to_string`: the compact JSON text of the value.
#[verifier::external_body]
pub(crate) fn print_value(v: &serde_json::Value) -> (r: String)
    ensures
        r@ == printed_text(value_model(*v)),
{
    v.to_string()
}

} // verus!
