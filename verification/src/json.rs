//! The boundary to `serde_json`: the outside types that carry JSON values,
//! the mathematical model that contracts speak of, and the calls themselves.
//! Nothing in this file is proved: each contract restates what `serde_json`
//! does.

use vstd::prelude::*;

verus! {

/// `serde_json::Value`, a JSON value, carried without looking inside.
#[verifier::external_type_specification]
#[verifier::external_body]
pub struct ExValue(serde_json::Value);

/// `serde_json::Map`, the fields of a JSON object, carried without looking
/// inside.
#[verifier::external_type_specification]
#[verifier::external_body]
#[verifier::reject_recursive_types(K)]
#[verifier::reject_recursive_types(V)]
pub struct ExObject<K, V>(serde_json::Map<K, V>);

/// `serde_json::Error`, the error of reading or printing JSON.
#[verifier::external_type_specification]
#[verifier::external_body]
pub struct ExJsonError(serde_json::Error);

/// A JSON object as `serde_json` holds it.
pub type JsonObject = serde_json::Map<String, serde_json::Value>;

/// What a JSON value is, as mathematics.
pub enum Json {
    Null,
    Bool(bool),
    /// A number, by the decimal text that `serde_json` prints for it.
    Number(Seq<char>),
    Text(Seq<char>),
    List(Seq<Json>),
    Object(Map<Seq<char>, Json>),
}

/// The JSON value that a `serde_json::Value` holds.
pub uninterp spec fn json_model(value: serde_json::Value) -> Json;

/// The fields that a `serde_json::Map` holds, each by its key.
pub uninterp spec fn object_model(object: serde_json::Map<String, serde_json::Value>) -> Map<
    Seq<char>,
    Json,
>;

/// The value that `serde_json::from_str` reads from a text, `None` where it
/// rejects the text.
pub uninterp spec fn text_model(text: Seq<char>) -> Option<Json>;

/// The text that `serde_json::to_string_pretty` prints for a value. The
/// fields of an object are printed in the order of their keys, which is how
/// `serde_json::Map` holds them unless it is built to keep the order of
/// insertion.
pub uninterp spec fn pretty_text(value: Json) -> Seq<char>;

/// The JSON values that a vector of `serde_json::Value` holds, in order.
pub open spec fn list_model(items: Seq<serde_json::Value>) -> Seq<Json> {
    Seq::new(items.len(), |i: int| json_model(items[i]))
}

/// `serde_json::from_str` at `serde_json::Value`: the value read is the one
/// that `text_model` names, and an error comes exactly where it names none.
#[verifier::external_body]
pub(crate) fn parse_value(text: &str) -> (r: Result<serde_json::Value, serde_json::Error>)
    ensures
        match r {
            Ok(value) => text_model(text@) == Some(json_model(value)),
            Err(_) => text_model(text@) is None,
        },
{
    serde_json::from_str::<serde_json::Value>(text)
}

/// `serde_json::to_string_pretty` at `serde_json::Value`: a text always comes
/// back, and it is the one that `pretty_text` names. The printer writes into
/// a vector in memory, the keys of every object are strings, and a value has
/// nothing in it that the printer refuses, so no error arises.
#[verifier::external_body]
pub(crate) fn print_value(value: &serde_json::Value) -> (r: Result<String, serde_json::Error>)
    ensures
        r is Ok,
        r matches Ok(text) ==> text@ == pretty_text(json_model(*value)),
{
    serde_json::to_string_pretty(value)
}

/// `serde_json::Value::as_str`: the text of a string value, `None` for every
/// other value.
pub assume_specification[ serde_json::Value::as_str ](value: &serde_json::Value) -> (r: Option<
    &str,
>)
    ensures
        match r {
            Some(text) => json_model(*value) == Json::Text(text@),
            None => !(json_model(*value) is Text),
        },
;

/// `serde_json::Value::as_array`: the items of an array value, `None` for
/// every other value.
pub assume_specification[ serde_json::Value::as_array ](value: &serde_json::Value) -> (r: Option<
    &Vec<serde_json::Value>,
>)
    ensures
        match r {
            Some(items) => json_model(*value) == Json::List(list_model(items@)),
            None => !(json_model(*value) is List),
        },
;

/// The `Object` variant of `serde_json::Value` taken apart: the map of an
/// object value, `None` for every other value.
#[verifier::external_body]
pub(crate) fn into_object(value: serde_json::Value) -> (r: Option<JsonObject>)
    ensures
        match r {
            Some(object) => json_model(value) == Json::Object(object_model(object)),
            None => !(json_model(value) is Object),
        },
{
    match value {
        serde_json::Value::Object(object) => Some(object),
        _ => None,
    }
}

/// The `String` variant of `serde_json::Value` built from a string.
#[verifier::external_body]
pub(crate) fn string_value(text: String) -> (value: serde_json::Value)
    ensures
        json_model(value) == Json::Text(text@),
{
    serde_json::Value::String(text)
}

/// The `Array` variant of `serde_json::Value` built from its items.
#[verifier::external_body]
pub(crate) fn array_value(items: Vec<serde_json::Value>) -> (value: serde_json::Value)
    ensures
        json_model(value) == Json::List(list_model(items@)),
{
    serde_json::Value::Array(items)
}

/// The `Object` variant of `serde_json::Value` built from a map.
#[verifier::external_body]
pub(crate) fn object_value(object: JsonObject) -> (value: serde_json::Value)
    ensures
        json_model(value) == Json::Object(object_model(object)),
{
    serde_json::Value::Object(object)
}

/// `serde_json::Map::remove`: the key leaves the map, and the value that it
/// had, if any, is handed out.
#[verifier::external_body]
pub(crate) fn object_remove(object: &mut JsonObject, key: &str) -> (r: Option<serde_json::Value>)
    ensures
        object_model(*final(object)) == object_model(*old(object)).remove(key@),
        match r {
            Some(value) => object_model(*old(object)).contains_key(key@) && object_model(
                *old(object),
            )[key@] == json_model(value),
            None => !object_model(*old(object)).contains_key(key@),
        },
{
    object.remove(key)
}

/// `serde_json::Map::insert`: the key holds the new value afterwards, and
/// every other key what it held. Nothing is said of the value handed out.
pub assume_specification[ serde_json::Map::<String, serde_json::Value>::insert ](
    object: &mut serde_json::Map<String, serde_json::Value>,
    k: String,
    v: serde_json::Value,
) -> (r: Option<serde_json::Value>)
    ensures
        object_model(*final(object)) == object_model(*old(object)).insert(k@, json_model(v)),
;

/// `Clone` of `serde_json::Map`: the copy holds the same fields.
pub assume_specification[ <serde_json::Map<String, serde_json::Value> as Clone>::clone ](
    object: &serde_json::Map<String, serde_json::Value>,
) -> (copy: serde_json::Map<String, serde_json::Value>)
    ensures
        object_model(copy) == object_model(*object),
;

} // verus!
