//! JSON objects with number and text members, built and rendered by
//! `serde_json`.
//!
//! An object is a `serde_json::Map`. This module makes one only empty and
//! fills it only with numbers and text, so the two maps below say all there
//! is to say about an object that verified code can hold.

use vstd::prelude::*;

verus! {

/// `serde_json::Value`, as an opaque type.
#[verifier::external_type_specification]
#[verifier::external_body]
pub struct ExJsonValue(serde_json::Value);

/// `serde_json::Map`, as an opaque type.
#[verifier::external_type_specification]
#[verifier::external_body]
#[verifier::reject_recursive_types(K)]
#[verifier::reject_recursive_types(V)]
pub struct ExJsonMap<K, V>(serde_json::Map<K, V>);

/// The members of an object that hold a number, by key.
pub uninterp spec fn object_numbers(object: serde_json::Map<String, serde_json::Value>) -> Map<
    Seq<char>,
    int,
>;

/// The members of an object that hold text, by key.
pub uninterp spec fn object_texts(object: serde_json::Map<String, serde_json::Value>) -> Map<
    Seq<char>,
    Seq<char>,
>;

/// The compact JSON text of an object with the given number and text members.
pub uninterp spec fn object_text(
    numbers: Map<Seq<char>, int>,
    texts: Map<Seq<char>, Seq<char>>,
) -> Seq<char>;

/// No number members.
pub open spec fn no_numbers() -> Map<Seq<char>, int> {
    Map::empty()
}

/// No text members.
pub open spec fn no_texts() -> Map<Seq<char>, Seq<char>> {
    Map::empty()
}

/// Calls `serde_json::Map::new`.
///
/// Trusted: the new object has no members.
#[verifier::external_body]
pub(crate) fn new_object() -> (object: serde_json::Map<String, serde_json::Value>)
    ensures
        object_numbers(object) == no_numbers(),
        object_texts(object) == no_texts(),
{
    serde_json::Map::new()
}

/// Calls `serde_json::Map::insert` with a number as the value.
///
/// Trusted: the member under `key` is now that number, whatever stood there
/// before; the other members are unchanged.
#[verifier::external_body]
pub(crate) fn insert_number(
    object: &mut serde_json::Map<String, serde_json::Value>,
    key: &str,
    value: u64,
)
    ensures
        object_numbers(*final(object)) == object_numbers(*old(object)).insert(key@, value as int),
        object_texts(*final(object)) == object_texts(*old(object)).remove(key@),
{
    object.insert(key.to_owned(), serde_json::Value::from(value));
}

/// Calls `serde_json::Map::insert` with a string as the value.
///
/// Trusted: the member under `key` is now that text, whatever stood there
/// before; the other members are unchanged.
#[verifier::external_body]
pub(crate) fn insert_text(
    object: &mut serde_json::Map<String, serde_json::Value>,
    key: &str,
    value: String,
)
    ensures
        object_texts(*final(object)) == object_texts(*old(object)).insert(key@, value@),
        object_numbers(*final(object)) == object_numbers(*old(object)).remove(key@),
{
    object.insert(key.to_owned(), serde_json::Value::String(value));
}

/// Calls `to_string` on the object as a `serde_json::Value`.
///
/// Trusted: the text of an object whose members are numbers and text
/// depends on the keys and what stands under each alone; the order in
/// which they were inserted plays no part, since the map keeps its keys
/// sorted.
#[verifier::external_body]
pub(crate) fn render_object(object: serde_json::Map<String, serde_json::Value>) -> (text: String)
    ensures
        text@ == object_text(object_numbers(object), object_texts(object)),
{
    serde_json::Value::Object(object).to_string()
}

} // verus!
