//! JSON objects of the `serde_json` crate, as far as the bridge fills them:
//! objects whose members are strings.

use vstd::prelude::*;

verus! {

/// `serde_json::Value`, any JSON value. Nothing inside it is read here.
#[verifier::external_type_specification]
#[verifier::external_body]
pub struct ExJsonValue(serde_json::Value);

/// `serde_json::Map`, the members of a JSON object. Nothing inside it is read
/// here.
#[verifier::external_type_specification]
#[verifier::external_body]
#[verifier::reject_recursive_types(K)]
#[verifier::reject_recursive_types(V)]
pub struct ExJsonMap<K, V>(serde_json::Map<K, V>);

/// The members of a `serde_json::Map`: every name that it holds, with the text
/// of its value where that value is a JSON string, and with `None` where it is
/// anything else.
pub uninterp spec fn members(object: serde_json::Map<String, serde_json::Value>) -> Map<
    Seq<char>,
    Option<Seq<char>>,
>;

/// The members of the JSON object that `value` is, as `members` gives them;
/// `None` where `value` is no object.
pub uninterp spec fn object_of(value: serde_json::Value) -> Option<
    Map<Seq<char>, Option<Seq<char>>>,
>;

/// `serde_json::Map::new`: a map without members.
#[verifier::external_body]
pub(crate) fn new_object() -> (object: serde_json::Map<String, serde_json::Value>)
    ensures
        members(object) == (Map::<Seq<char>, Option<Seq<char>>>::empty()),
{
    serde_json::Map::new()
}

/// `serde_json::Map::insert` with a value made by `serde_json::Value::String`:
/// afterwards the map holds `name` with the string `text`, in place of what it
/// held under that name before, and every other member as before.
#[verifier::external_body]
pub(crate) fn insert_text(
    object: &mut serde_json::Map<String, serde_json::Value>,
    name: String,
    text: String,
)
    ensures
        members(*final(object)) == members(*old(object)).insert(name@, Some(text@)),
{
    object.insert(name, serde_json::Value::String(text));
}

/// `serde_json::Value::Object`: the JSON object with the members of the map.
#[verifier::external_body]
pub(crate) fn object_value(object: serde_json::Map<String, serde_json::Value>) -> (value:
    serde_json::Value)
    ensures
        object_of(value) == Some(members(object)),
{
    serde_json::Value::Object(object)
}

} // verus!
