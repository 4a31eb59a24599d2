//! JSON documents: what a `serde_json::Value` holds, and the calls into `serde_json` that read,
//! build, parse and print one.

use serde_json::{Map as JsonMap, Value};
use vstd::prelude::*;

verus! {

/// A JSON document as a mathematical value.
pub enum Json {
    Null,
    Bool(bool),
    /// A number that is kept as an `i64` or a `u64`.
    Int(int),
    /// Any other number, by the text it prints as.
    Decimal(Seq<char>),
    Str(Seq<char>),
    Arr(Seq<Json>),
    Obj(Map<Seq<char>, Json>),
}

impl Json {
    /// The member of an object under `key`; nothing for a missing key or a document that is no
    /// object.
    pub open spec fn member(self, key: Seq<char>) -> Option<Json> {
        match self {
            Json::Obj(members) => if members.contains_key(key) {
                Some(members[key])
            } else {
                None
            },
            _ => None,
        }
    }

    /// The text of a string document.
    pub open spec fn text(self) -> Option<Seq<char>> {
        match self {
            Json::Str(s) => Some(s),
            _ => None,
        }
    }

    /// The text of the string under `key`.
    pub open spec fn text_at(self, key: Seq<char>) -> Option<Seq<char>> {
        match self.member(key) {
            Some(v) => v.text(),
            None => None,
        }
    }

    /// The items of an array document.
    pub open spec fn items(self) -> Option<Seq<Json>> {
        match self {
            Json::Arr(items) => Some(items),
            _ => None,
        }
    }

    /// The number of an integer document that fits `i64`.
    pub open spec fn integer(self) -> Option<i64> {
        match self {
            Json::Int(n) => if i64::MIN <= n <= i64::MAX {
                Some(n as i64)
            } else {
                None
            },
            _ => None,
        }
    }
}

/// The string document of a text, or `null` where there is none.
pub open spec fn optional_text(text: Option<Seq<char>>) -> Json {
    match text {
        Some(text) => Json::Str(text),
        None => Json::Null,
    }
}

/// A document to be answered with.
#[derive(Clone, Debug)]
pub struct Document(pub Value);

impl View for Document {
    type V = Json;

    open spec fn view(&self) -> Json {
        json_of(self.0)
    }
}

#[verifier::external_type_specification]
#[verifier::external_body]
pub struct ExValue(serde_json::Value);

#[verifier::external_type_specification]
#[verifier::external_body]
pub struct ExJsonError(serde_json::Error);

#[verifier::external_type_specification]
#[verifier::external_body]
#[verifier::reject_recursive_types(K)]
#[verifier::reject_recursive_types(V)]
pub struct ExJsonMap<K, V>(serde_json::Map<K, V>);

/// The document that a `serde_json::Value` holds.
pub uninterp spec fn json_of(value: serde_json::Value) -> Json;

/// The documents that values hold, in their order.
pub open spec fn json_all(values: Seq<serde_json::Value>) -> Seq<Json> {
    values.map_values(|value: serde_json::Value| json_of(value))
}

/// The members that a `serde_json::Map` holds.
pub uninterp spec fn members_of(map: serde_json::Map<String, serde_json::Value>) -> Map<
    Seq<char>,
    Json,
>;

/// An object's members where it has none.
pub open spec fn no_members() -> Map<Seq<char>, Json> {
    Map::empty()
}

/// What `serde_json` reads from a text: nothing where the text is not JSON.
pub uninterp spec fn json_parsed(text: Seq<char>) -> Option<Json>;

/// The compact text that a document prints as.
pub uninterp spec fn json_printed(json: Json) -> Seq<char>;

/// The bytes that a document serialises to: nothing where serialising fails.
pub uninterp spec fn json_encoded(json: Json) -> Option<Seq<u8>>;

/// Calls `serde_json::Value::is_null`. Claimed of it: true exactly for the `null` document.
#[verifier::external_body]
pub(crate) fn is_null(value: &Value) -> (r: bool)
    ensures
        r == (json_of(*value) == Json::Null),
{
    value.is_null()
}

/// Calls `serde_json::Value::get` with a string index. Claimed of it: the member of an object
/// under that key, and `None` for a missing key or a value that is no object.
#[verifier::external_body]
pub(crate) fn get<'a>(value: &'a Value, key: &str) -> (r: Option<&'a Value>)
    ensures
        match r {
            Some(v) => json_of(*value).member(key@) == Some(json_of(*v)),
            None => json_of(*value).member(key@) is None,
        },
{
    value.get(key)
}

/// Calls `serde_json::Value::as_str`. Claimed of it: the text of a string document, `None`
/// otherwise.
#[verifier::external_body]
pub(crate) fn as_str<'a>(value: &'a Value) -> (r: Option<&'a str>)
    ensures
        match r {
            Some(s) => json_of(*value).text() == Some(s@),
            None => json_of(*value).text() is None,
        },
{
    value.as_str()
}

/// Calls `serde_json::Value::as_i64`. Claimed of it: the number of an integer document that fits
/// `i64`, `None` otherwise.
#[verifier::external_body]
pub(crate) fn as_i64(value: &Value) -> (r: Option<i64>)
    ensures
        r == json_of(*value).integer(),
{
    value.as_i64()
}

/// Calls `serde_json::Value::as_array`. Claimed of it: the items of an array document in their
/// order, `None` otherwise.
#[verifier::external_body]
pub(crate) fn as_array<'a>(value: &'a Value) -> (r: Option<&'a Vec<Value>>)
    ensures
        match r {
            Some(items) => json_of(*value).items() == Some(json_all(items@)),
            None => json_of(*value).items() is None,
        },
{
    value.as_array()
}

/// Specifies `<serde_json::Value as Clone>::clone`. Claimed of it: the copy holds the same
/// document.
pub assume_specification[ <serde_json::Value as Clone>::clone ](value: &serde_json::Value) -> (r:
    serde_json::Value)
    ensures
        json_of(r) == json_of(*value),
;

/// Calls `serde_json::from_str` into a `Value`. Claimed of it: whether it succeeds, and which
/// document it then gives, depends on the text alone.
#[verifier::external_body]
pub(crate) fn parse(text: &str) -> (r: Result<Value, serde_json::Error>)
    ensures
        match r {
            Ok(value) => json_parsed(text@) == Some(json_of(value)),
            Err(_) => json_parsed(text@) is None,
        },
{
    serde_json::from_str(text)
}

/// Calls `<serde_json::Value as ToString>::to_string`. Claimed of it: the text depends on the
/// document alone (objects are printed in the order of their keys).
#[verifier::external_body]
pub(crate) fn print(value: &Value) -> (r: String)
    ensures
        r@ == json_printed(json_of(*value)),
{
    value.to_string()
}

/// Calls `serde_json::to_vec`. Claimed of it: whether it succeeds, and which bytes it then
/// gives, depends on the document alone.
#[verifier::external_body]
pub(crate) fn encode(value: &Value) -> (r: Result<Vec<u8>, serde_json::Error>)
    ensures
        match r {
            Ok(bytes) => json_encoded(json_of(*value)) == Some(bytes@),
            Err(_) => json_encoded(json_of(*value)) is None,
        },
{
    serde_json::to_vec(value)
}

/// Calls `<serde_json::Value as From<()>>::from`. Claimed of it: the `null` document.
#[verifier::external_body]
pub(crate) fn null() -> (r: Value)
    ensures
        json_of(r) == Json::Null,
{
    Value::from(())
}

/// Calls `<serde_json::Value as From<bool>>::from`. Claimed of it: the boolean document.
#[verifier::external_body]
pub(crate) fn boolean(b: bool) -> (r: Value)
    ensures
        json_of(r) == Json::Bool(b),
{
    Value::from(b)
}

/// Calls `<serde_json::Value as From<i64>>::from`. Claimed of it: the integer document.
#[verifier::external_body]
pub(crate) fn integer(n: i64) -> (r: Value)
    ensures
        json_of(r) == Json::Int(n as int),
{
    Value::from(n)
}

/// Calls `<serde_json::Value as From<u64>>::from`. Claimed of it: the integer document.
#[verifier::external_body]
pub(crate) fn count(n: u64) -> (r: Value)
    ensures
        json_of(r) == Json::Int(n as int),
{
    Value::from(n)
}

/// Calls `<serde_json::Value as From<&str>>::from`. Claimed of it: the string document with that
/// text.
#[verifier::external_body]
pub(crate) fn string(s: &str) -> (r: Value)
    ensures
        json_of(r) == Json::Str(s@),
{
    Value::from(s)
}

/// Calls `<serde_json::Value as From<Vec<Value>>>::from`. Claimed of it: the array document of
/// the items in their order.
#[verifier::external_body]
pub(crate) fn array(items: Vec<Value>) -> (r: Value)
    ensures
        json_of(r) == Json::Arr(json_all(items@)),
{
    Value::from(items)
}

/// Calls `<serde_json::Value as From<serde_json::Map<String, Value>>>::from`. Claimed of it: the
/// object document with the members of the map.
#[verifier::external_body]
pub(crate) fn object(map: JsonMap<String, Value>) -> (r: Value)
    ensures
        json_of(r) == Json::Obj(members_of(map)),
{
    Value::from(map)
}

/// Calls `serde_json::Map::new`. Claimed of it: a map without members.
#[verifier::external_body]
pub(crate) fn new_map() -> (r: JsonMap<String, Value>)
    ensures
        members_of(r) == no_members(),
{
    JsonMap::new()
}

/// Calls `serde_json::Map::insert` with a copy of the key. Claimed of it: the member under that
/// key is the given document afterwards, and every other member is as before.
#[verifier::external_body]
pub(crate) fn put(members: &mut JsonMap<String, Value>, key: &str, value: Value)
    ensures
        members_of(*final(members)) == members_of(*old(members)).insert(key@, json_of(value)),
{
    members.insert(key.to_string(), value);
}

/// The text of the string under `key`.
pub(crate) fn text_at<'a>(value: &'a Value, key: &str) -> (r: Option<&'a str>)
    ensures
        match r {
            Some(s) => json_of(*value).text_at(key@) == Some(s@),
            None => json_of(*value).text_at(key@) is None,
        },
{
    match get(value, key) {
        Some(v) => as_str(v),
        None => None,
    }
}

/// The string document of a text, or `null` where there is none.
pub(crate) fn string_or_null(text: Option<&str>) -> (r: Value)
    ensures
        match text {
            Some(text) => json_of(r) == Json::Str(text@),
            None => json_of(r) == Json::Null,
        },
{
    match text {
        Some(text) => string(text),
        None => null(),
    }
}

} // verus!
