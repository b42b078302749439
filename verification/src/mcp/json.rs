//! The structured documents that tools take and declare. The gateway
//! carries them as they are; all it ever asks of one is whether it is an
//! object.

use vstd::prelude::*;

verus! {

/// `serde_json::Value`: a structured document.
#[verifier::external_type_specification]
#[verifier::external_body]
pub struct ExJsonValue(serde_json::Value);

/// `serde_json::Map`: the members of an object.
#[verifier::external_type_specification]
#[verifier::external_body]
#[verifier::reject_recursive_types(K)]
#[verifier::reject_recursive_types(V)]
pub struct ExJsonMap<K, V>(serde_json::Map<K, V>);

/// The object that a document is: its members, where the document is an
/// object, and `None` where it is anything else.
pub uninterp spec fn json_object(value: serde_json::Value) -> Option<
    serde_json::Map<String, serde_json::Value>,
>;

/// The members that an object holds, by key.
pub uninterp spec fn json_members(object: serde_json::Map<String, serde_json::Value>) -> Map<
    Seq<char>,
    serde_json::Value,
>;

/// No members.
pub open spec fn no_members() -> Map<Seq<char>, serde_json::Value> {
    Map::empty()
}

/// `serde_json::Value` derives `Clone`: the copy is the same document.
pub assume_specification[ <serde_json::Value as Clone>::clone ](value: &serde_json::Value) -> (copy:
    serde_json::Value)
    ensures
        copy == *value,
;

/// `Value::as_object`: a copy of the document's members where it is an
/// object, `None` where it is not.
#[verifier::external_body]
pub(crate) fn value_as_object(value: &serde_json::Value) -> (object: Option<
    serde_json::Map<String, serde_json::Value>,
>)
    ensures
        object == json_object(*value),
{
    value.as_object().cloned()
}

/// `Value::Object`: the document that is an object with the members of `object`.
#[verifier::external_body]
pub(crate) fn object_value(object: serde_json::Map<String, serde_json::Value>) -> (value:
    serde_json::Value)
    ensures
        json_object(value) == Some(object),
{
    serde_json::Value::Object(object)
}

/// `Map::new`: an object without members.
#[verifier::external_body]
pub(crate) fn empty_object() -> (object: serde_json::Map<String, serde_json::Value>)
    ensures
        json_members(object) == no_members(),
{
    serde_json::Map::new()
}

} // verus!
