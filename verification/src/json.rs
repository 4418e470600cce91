//! JSON values and objects, which serde_json holds, and the model that contracts speak of.

use serde_json::Value;
use vstd::prelude::*;

verus! {

/// What a JSON value holds.
///
/// The values that this crate builds are integers, texts, arrays and objects;
/// `Other` stands for the rest (null, booleans and numbers that are no integers).
pub enum Json {
    Number(int),
    Text(Seq<char>),
    Array(Seq<Json>),
    Object(Map<Seq<char>, Json>),
    Other,
}

/// serde_json's value, opaque here: [`json_of`] names what it holds.
#[verifier::external_type_specification]
#[verifier::external_body]
pub struct ExValue(serde_json::Value);

/// serde_json's object, opaque here: [`entries_of`] names what it holds.
#[verifier::external_type_specification]
#[verifier::external_body]
#[verifier::reject_recursive_types(K)]
#[verifier::reject_recursive_types(V)]
pub struct ExObject<K, V>(serde_json::Map<K, V>);

/// What the value `value` holds.
pub uninterp spec fn json_of(value: serde_json::Value) -> Json;

/// What the object `object` holds: each key with what its value holds.
pub uninterp spec fn entries_of(object: serde_json::Map<String, serde_json::Value>) -> Map<
    Seq<char>,
    Json,
>;

/// The entries of an empty object.
pub open spec fn no_entries() -> Map<Seq<char>, Json> {
    Map::empty()
}

/// Whether `json` is made of texts and of integers of 64 bits alone, in arrays and objects of
/// any depth, and so can travel as canonical JSON.
pub open spec fn canonical(json: Json) -> bool
    decreases json,
{
    match json {
        Json::Number(n) => i64::MIN <= n <= i64::MAX,
        Json::Text(_) => true,
        Json::Array(values) => forall|i: int|
            0 <= i < values.len() ==> canonical(#[trigger] values[i]),
        Json::Object(entries) => forall|key: Seq<char>|
            entries.contains_key(key) ==> canonical(#[trigger] entries[key]),
        Json::Other => false,
    }
}

/// What each value of the list `values` holds, in order.
pub open spec fn json_of_each(values: Seq<Value>) -> Seq<Json> {
    values.map_values(|value: Value| json_of(value))
}

/// What the value of `value` holds, where there is one.
pub open spec fn json_of_option(value: Option<Value>) -> Option<Json> {
    match value {
        Some(v) => Some(json_of(v)),
        None => None,
    }
}

/// `serde_json::Map::new` makes an object without entries.
pub assume_specification[ serde_json::Map::<String, serde_json::Value>::new ]() -> (made:
    serde_json::Map<String, serde_json::Value>)
    ensures
        entries_of(made) == no_entries(),
;

/// `serde_json::Map::insert` puts `v` under `k` and leaves every other entry as it was.
/// It hands back the value that stood under `k` before, or `None` where there was none.
pub assume_specification[ serde_json::Map::<String, serde_json::Value>::insert ](
    object: &mut serde_json::Map<String, serde_json::Value>,
    k: String,
    v: serde_json::Value,
) -> (previous: Option<serde_json::Value>)
    ensures
        entries_of(*final(object)) == entries_of(*old(object)).insert(k@, json_of(v)),
        previous is Some <==> entries_of(*old(object)).contains_key(k@),
        previous matches Some(value) ==> json_of(value) == entries_of(*old(object))[k@],
;

/// `serde_json::Map::get` finds the value under `key`, or `None` where there is none.
#[verifier::external_body]
pub(crate) fn lookup<'a>(object: &'a serde_json::Map<String, Value>, key: &str) -> (found: Option<
    &'a Value,
>)
    ensures
        found is Some <==> entries_of(*object).contains_key(key@),
        found matches Some(value) ==> json_of(*value) == entries_of(*object)[key@],
{
    object.get(key)
}

/// `serde_json::Value::as_str` gives the text of a string, and `None` for any other value.
pub assume_specification[ serde_json::Value::as_str ](value: &serde_json::Value) -> (found: Option<
    &str,
>)
    ensures
        found is Some <==> json_of(*value) is Text,
        found matches Some(t) ==> json_of(*value) == Json::Text(t@),
;

/// `serde_json::Value::from` for an `i64` makes the number of that value.
#[verifier::external_body]
pub(crate) fn number(n: i64) -> (value: Value)
    ensures
        json_of(value) == Json::Number(n as int),
{
    Value::from(n)
}

/// `serde_json::Value::from` for a string slice makes the string of that text.
#[verifier::external_body]
pub(crate) fn text(t: &str) -> (value: Value)
    ensures
        json_of(value) == Json::Text(t@),
{
    Value::from(t)
}

/// `serde_json::Value::from` for a list of values makes the array of those values, in order.
#[verifier::external_body]
pub(crate) fn array(values: Vec<Value>) -> (value: Value)
    ensures
        json_of(value) == Json::Array(json_of_each(values@)),
{
    Value::from(values)
}

/// `serde_json::Value::from` for an object makes the value that holds this object.
#[verifier::external_body]
pub(crate) fn object(entries: serde_json::Map<String, Value>) -> (value: Value)
    ensures
        json_of(value) == Json::Object(entries_of(entries)),
{
    Value::from(entries)
}

/// `entries` with `value` under `key`, or `entries` itself where there is no value.
pub open spec fn with_entry(
    entries: Map<Seq<char>, Json>,
    key: Seq<char>,
    value: Option<Json>,
) -> Map<Seq<char>, Json> {
    match value {
        Some(v) => entries.insert(key, v),
        None => entries,
    }
}

/// Puts `value` under `key` where there is a value, and does nothing otherwise.
pub fn insert_some(
    object: &mut serde_json::Map<String, Value>,
    key: &str,
    value: Option<Value>,
)
    ensures
        entries_of(*final(object)) == with_entry(
            entries_of(*old(object)),
            key@,
            json_of_option(value),
        ),
{
    if let Some(v) = value {
        let _ = object.insert(key.to_string(), v);
    }
}

} // verus!
