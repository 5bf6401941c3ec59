//! The JSON layer. Text is parsed and printed by `serde_json`; this module
//! gives its value type a mathematical model and states, for each call the
//! library makes into it, what the call does to that model.
//!
//! Nothing in this file is proved. Every contract here is read off the source
//! of `serde_json` (with its default features, under which an object is a
//! sorted map) and believed; the rest of the library is proved from them.

use vstd::prelude::*;

verus! {

/// What a JSON document is, as far as this library looks into one.
///
/// Numbers are split in two: those that `serde_json` hands out as a `u64`
/// (`Unsigned`), and all the others (negative or fractional), of which the
/// library only needs to know that they are numbers. The integer carried by
/// `OtherNumber` tells such numbers apart and has no further meaning.
pub enum Json {
    Null,
    Bool(bool),
    Unsigned(u64),
    OtherNumber(int),
    Text(Seq<char>),
    Array(Seq<Json>),
    Object(Map<Seq<char>, Json>),
}

#[verifier::external_type_specification]
#[verifier::external_body]
pub struct ExValue(serde_json::Value);

#[verifier::external_type_specification]
#[verifier::external_body]
#[verifier::reject_recursive_types(K)]
#[verifier::reject_recursive_types(V)]
pub struct ExMap<K, V>(serde_json::Map<K, V>);

#[verifier::external_type_specification]
#[verifier::external_body]
pub struct ExError(serde_json::Error);

/// The document that a `serde_json::Value` holds.
pub uninterp spec fn json_of(value: serde_json::Value) -> Json;

/// The members that a `serde_json::Map` holds, by key.
pub uninterp spec fn json_fields(fields: serde_json::Map<String, serde_json::Value>) -> Map<
    Seq<char>,
    Json,
>;

/// The document that `serde_json::from_str` reads from `text`, or `None`
/// where it refuses the text.
pub uninterp spec fn json_parse(text: Seq<char>) -> Option<Json>;

/// The text that `serde_json::to_string` prints for `document`.
pub uninterp spec fn json_text(document: Json) -> Seq<char>;

/// The documents held by a list of values, in order.
pub open spec fn json_items(values: Seq<serde_json::Value>) -> Seq<Json> {
    values.map_values(|value: serde_json::Value| json_of(value))
}

/// The members of an object that has none.
pub open spec fn no_members() -> Map<Seq<char>, Json> {
    Map::empty()
}

/// Outside function: `serde_json::from_str`, at the type `Value`. The result
/// is a function of the text alone: either the document read, which the
/// contract names `json_parse(text)`, or an error where the text is refused.
#[verifier::external_body]
pub(crate) fn parse_text(text: &str) -> (parsed: Result<serde_json::Value, serde_json::Error>)
    ensures
        match parsed {
            Ok(value) => json_parse(text@) == Some(json_of(value)),
            Err(_) => json_parse(text@) is None,
        },
{
    serde_json::from_str::<serde_json::Value>(text)
}

/// Outside function: `serde_json::to_string`, at the type `Value`. Its
/// documentation names two ways to fail: a `Serialize` impl that decides to
/// fail, and a map whose keys are no strings. The impl for `Value` decides
/// nothing and the keys of its objects are strings, so the call succeeds. The
/// text is a function of the document alone, which the contract names
/// `json_text`.
#[verifier::external_body]
pub(crate) fn print_value(value: &serde_json::Value) -> (printed: Result<
    String,
    serde_json::Error,
>)
    ensures
        printed is Ok,
        printed matches Ok(text) ==> text@ == json_text(json_of(*value)),
{
    serde_json::to_string(value)
}

/// Outside function: `serde_json::Value::is_null`. True exactly for `null`.
#[verifier::external_body]
pub(crate) fn value_is_null(value: &serde_json::Value) -> (null: bool)
    ensures
        null == (json_of(*value) is Null),
{
    value.is_null()
}

/// Outside function: `serde_json::Value::as_bool`. The boolean of a JSON
/// boolean, `None` for every other value.
#[verifier::external_body]
pub(crate) fn value_as_bool(value: &serde_json::Value) -> (flag: Option<bool>)
    ensures
        flag == (match json_of(*value) {
            Json::Bool(b) => Some(b),
            _ => None,
        }),
{
    value.as_bool()
}

/// Outside function: `serde_json::Value::as_u64`. The number, where the value
/// is a number that `serde_json` holds as an unsigned integer; `None` for
/// every other value, negative and fractional numbers included.
#[verifier::external_body]
pub(crate) fn value_as_u64(value: &serde_json::Value) -> (number: Option<u64>)
    ensures
        number == (match json_of(*value) {
            Json::Unsigned(n) => Some(n),
            _ => None,
        }),
{
    value.as_u64()
}

/// Outside function: `serde_json::Value::as_str`. The characters of a JSON
/// string, `None` for every other value.
#[verifier::external_body]
pub(crate) fn value_as_str(value: &serde_json::Value) -> (text: Option<&str>)
    ensures
        match text {
            Some(s) => json_of(*value) == Json::Text(s@),
            None => !(json_of(*value) is Text),
        },
{
    value.as_str()
}

/// Outside function: `serde_json::Value::as_array`. The elements of a JSON
/// array, in order; `None` for every other value.
#[verifier::external_body]
pub(crate) fn value_as_array(value: &serde_json::Value) -> (items: Option<&Vec<serde_json::Value>>)
    ensures
        match items {
            Some(list) => json_of(*value) == Json::Array(json_items(list@)),
            None => !(json_of(*value) is Array),
        },
{
    value.as_array()
}

/// Outside function: `serde_json::Value::as_object`. The members of a JSON
/// object, of which there are finitely many; `None` for every other value.
#[verifier::external_body]
pub(crate) fn value_as_object(value: &serde_json::Value) -> (members: Option<
    &serde_json::Map<String, serde_json::Value>,
>)
    ensures
        match members {
            Some(fields) => json_of(*value) == Json::Object(json_fields(*fields))
                && json_fields(*fields).dom().finite(),
            None => !(json_of(*value) is Object),
        },
{
    value.as_object()
}

/// Outside function: `serde_json::Map::len`. The number of members.
#[verifier::external_body]
pub(crate) fn map_len(fields: &serde_json::Map<String, serde_json::Value>) -> (count: usize)
    ensures
        count == json_fields(*fields).dom().len(),
{
    fields.len()
}

/// Outside function: `serde_json::Map::get`. The member under `key`, or
/// `None` where the object has no such key.
#[verifier::external_body]
pub(crate) fn map_get<'a>(
    fields: &'a serde_json::Map<String, serde_json::Value>,
    key: &str,
) -> (member: Option<&'a serde_json::Value>)
    ensures
        match member {
            Some(value) => json_fields(*fields).dom().contains(key@) && json_fields(*fields)[key@]
                == json_of(*value),
            None => !json_fields(*fields).dom().contains(key@),
        },
{
    fields.get(key)
}

/// Outside item: the variant `serde_json::Value::Null`.
#[verifier::external_body]
pub(crate) fn value_null() -> (value: serde_json::Value)
    ensures
        json_of(value) == Json::Null,
{
    serde_json::Value::Null
}

/// Outside item: the variant `serde_json::Value::Bool`.
#[verifier::external_body]
pub(crate) fn value_bool(flag: bool) -> (value: serde_json::Value)
    ensures
        json_of(value) == Json::Bool(flag),
{
    serde_json::Value::Bool(flag)
}

/// Outside function: `serde_json::Value::from`, at the type `u64`. The
/// number is held as an unsigned integer, so `as_u64` gives it back.
#[verifier::external_body]
pub(crate) fn value_u64(number: u64) -> (value: serde_json::Value)
    ensures
        json_of(value) == Json::Unsigned(number),
{
    serde_json::Value::from(number)
}

/// Outside item: the variant `serde_json::Value::String`.
#[verifier::external_body]
pub(crate) fn value_string(text: String) -> (value: serde_json::Value)
    ensures
        json_of(value) == Json::Text(text@),
{
    serde_json::Value::String(text)
}

/// Outside item: the variant `serde_json::Value::Array`.
#[verifier::external_body]
pub(crate) fn value_array(items: Vec<serde_json::Value>) -> (value: serde_json::Value)
    ensures
        json_of(value) == Json::Array(json_items(items@)),
{
    serde_json::Value::Array(items)
}

/// Outside item: the variant `serde_json::Value::Object`.
#[verifier::external_body]
pub(crate) fn value_object(fields: serde_json::Map<String, serde_json::Value>) -> (value:
    serde_json::Value)
    ensures
        json_of(value) == Json::Object(json_fields(fields)),
{
    serde_json::Value::Object(fields)
}

/// Outside function: `serde_json::Map::new`. An object without members.
#[verifier::external_body]
pub(crate) fn map_new() -> (fields: serde_json::Map<String, serde_json::Value>)
    ensures
        json_fields(fields) == no_members(),
{
    serde_json::Map::new()
}

/// Outside function: `serde_json::Map::insert`. Afterwards the object holds
/// `value` under `key`, in place of what it held there before, and every
/// other member as before.
#[verifier::external_body]
pub(crate) fn map_insert(
    fields: &mut serde_json::Map<String, serde_json::Value>,
    key: &str,
    value: serde_json::Value,
)
    ensures
        json_fields(*final(fields)) == json_fields(*old(fields)).insert(key@, json_of(value)),
{
    fields.insert(key.to_owned(), value);
}

} // verus!
