//! JSON objects as token payloads: `serde_json::Map` behind contracts over a
//! mathematical map of members.
//!
//! Nothing here is proved. Each function below hands its arguments to one
//! method of `serde_json` and states what that method is documented to do.

use vstd::prelude::*;

verus! {

/// `serde_json::Value`: a JSON value, carried and never read here.
#[verifier::external_type_specification]
#[verifier::external_body]
pub struct ExJsonValue(serde_json::Value);

/// `serde_json::Map`: a JSON object, read only through the functions below.
#[verifier::external_type_specification]
#[verifier::external_body]
#[verifier::reject_recursive_types(K)]
#[verifier::reject_recursive_types(V)]
pub struct ExJsonObject<K, V>(serde_json::Map<K, V>);

/// A JSON object.
pub type JsonObject = serde_json::Map<String, serde_json::Value>;

/// What a member of a JSON object holds, as far as this library reads it.
pub enum Member {
    /// A JSON string.
    Text(Seq<char>),
    /// A JSON number written as an integer between `i64::MIN` and `u64::MAX`.
    Integer(int),
    /// Anything else: null, a boolean, another number, an array, an object.
    Other,
}

/// The members of a JSON object, by key.
pub uninterp spec fn members(object: JsonObject) -> Map<Seq<char>, Member>;

/// Every member is a string or an integer.
pub open spec fn plain(fields: Map<Seq<char>, Member>) -> bool {
    forall|key: Seq<char>| fields.contains_key(key) ==> !(#[trigger] fields[key] is Other)
}

/// The string under `key`, if the member is there and is a string.
pub open spec fn text_member(fields: Map<Seq<char>, Member>, key: Seq<char>) -> Option<Seq<char>> {
    if fields.contains_key(key) {
        match fields[key] {
            Member::Text(text) => Some(text),
            _ => None,
        }
    } else {
        None
    }
}

/// The integer under `key`, if the member is there and is an integer.
pub open spec fn integer_member(fields: Map<Seq<char>, Member>, key: Seq<char>) -> Option<int> {
    if fields.contains_key(key) {
        match fields[key] {
            Member::Integer(number) => Some(number),
            _ => None,
        }
    } else {
        None
    }
}

/// `serde_json::Map::new`: an object without members.
#[verifier::external_body]
pub(crate) fn new_object() -> (object: JsonObject)
    ensures
        members(object) == (Map::<Seq<char>, Member>::empty()),
{
    serde_json::Map::new()
}

/// `serde_json::Map::insert` with a string value: the member `key` becomes
/// that string, and the other members stay.
#[verifier::external_body]
pub(crate) fn put_text(
    object: &mut JsonObject,
    key: &str,
    value: &str,
)
    ensures
        members(*final(object)) == members(*old(object)).insert(key@, Member::Text(value@)),
{
    object.insert(key.to_owned(), serde_json::Value::from(value));
}

/// `serde_json::Map::insert` with an unsigned number: the member `key` becomes
/// that integer, and the other members stay.
#[verifier::external_body]
pub(crate) fn put_unsigned(
    object: &mut JsonObject,
    key: &str,
    value: u64,
)
    ensures
        members(*final(object)) == members(*old(object)).insert(
            key@,
            Member::Integer(value as int),
        ),
{
    object.insert(key.to_owned(), serde_json::Value::from(value));
}

/// `serde_json::Map::insert` with a signed number: the member `key` becomes
/// that integer, and the other members stay.
#[verifier::external_body]
pub(crate) fn put_signed(
    object: &mut JsonObject,
    key: &str,
    value: i64,
)
    ensures
        members(*final(object)) == members(*old(object)).insert(
            key@,
            Member::Integer(value as int),
        ),
{
    object.insert(key.to_owned(), serde_json::Value::from(value));
}

/// `serde_json::Map::get` and `Value::as_str`: the string under `key`, where
/// the object has that member and it is a string.
#[verifier::external_body]
pub(crate) fn text_at(object: &JsonObject, key: &str) -> (found: Option<String>)
    ensures
        match found {
            Some(text) => text_member(members(*object), key@) == Some(text@),
            None => text_member(members(*object), key@) is None,
        },
{
    Some(object.get(key)?.as_str()?.to_owned())
}

/// `serde_json::Map::get` and `Value::as_u64`: the number under `key`, where
/// the object has that member and it is an integer that a `u64` holds.
#[verifier::external_body]
pub(crate) fn unsigned_at(object: &JsonObject, key: &str) -> (found: Option<u64>)
    ensures
        match found {
            Some(number) => integer_member(members(*object), key@) == Some(number as int),
            None => match integer_member(members(*object), key@) {
                Some(number) => !(0 <= number <= u64::MAX),
                None => true,
            },
        },
{
    object.get(key)?.as_u64()
}

/// `serde_json::Map::get` and `Value::as_i64`: the number under `key`, where
/// the object has that member and it is an integer that an `i64` holds.
#[verifier::external_body]
pub(crate) fn signed_at(object: &JsonObject, key: &str) -> (found: Option<i64>)
    ensures
        match found {
            Some(number) => integer_member(members(*object), key@) == Some(number as int),
            None => match integer_member(members(*object), key@) {
                Some(number) => !(i64::MIN <= number <= i64::MAX),
                None => true,
            },
        },
{
    object.get(key)?.as_i64()
}

} // verus!
