//! JSON documents, as `serde_json` parses and holds them.
//!
//! Everything in this module is taken on trust from `serde_json`: the parser
//! is named, not described, and the accessors are stated over the tree that a
//! value stands for.

use serde_json::Value;
use vstd::prelude::*;

verus! {

/// `serde_json::Value`, held without a look inside: what a value holds is
/// known through [`json_tree`] alone.
#[verifier::external_type_specification]
#[verifier::external_body]
pub struct ExValue(serde_json::Value);

/// `serde_json::Error`, of which nothing is known but that it is an error.
#[verifier::external_type_specification]
#[verifier::external_body]
pub struct ExJsonError(serde_json::Error);

/// A JSON document as a mathematical tree. Numbers carry no payload: nothing
/// in this library reads one.
pub enum Json {
    Null,
    Bool(bool),
    Number,
    Text(Seq<char>),
    Array(Seq<Json>),
    Object(Map<Seq<char>, Json>),
}

/// The tree that a `serde_json::Value` holds.
pub uninterp spec fn json_tree(value: serde_json::Value) -> Json;

/// What `serde_json::from_slice` makes of `bytes`: the tree of the document,
/// or `None` where it reports an error.
pub uninterp spec fn json_parse(bytes: Seq<u8>) -> Option<Json>;

/// The member `key` of an object; `Null` for a missing member and for a tree
/// that is no object.
pub open spec fn member_of(tree: Json, key: Seq<char>) -> Json {
    match tree {
        Json::Object(members) => if members.contains_key(key) {
            members[key]
        } else {
            Json::Null
        },
        _ => Json::Null,
    }
}

/// The trees of a vector of values, in order.
pub open spec fn json_trees(values: Seq<Value>) -> Seq<Json> {
    values.map_values(|value: Value| json_tree(value))
}

/// `serde_json::from_slice` at type `Value`: the result is the named parse of
/// the bytes.
#[verifier::external_body]
pub(crate) fn json_from_slice(bytes: &[u8]) -> (parsed: Result<Value, serde_json::Error>)
    ensures
        match parsed {
            Ok(value) => json_parse(bytes@) == Some(json_tree(value)),
            Err(_) => json_parse(bytes@) is None,
        },
{
    serde_json::from_slice(bytes)
}

/// Indexing a `serde_json::Value` by a string: the member of an object, and
/// the null value wherever there is no such member.
#[verifier::external_body]
pub(crate) fn json_member<'a>(value: &'a Value, key: &str) -> (member: &'a Value)
    ensures
        json_tree(*member) == member_of(json_tree(*value), key@),
{
    &value[key]
}

/// `serde_json::Value::as_array`: the elements of an array, `None` for any
/// other value.
pub assume_specification<'a>[ serde_json::Value::as_array ](value: &'a Value) -> (items: Option<
    &'a Vec<Value>,
>)
    ensures
        match items {
            Some(items) => json_tree(*value) == Json::Array(json_trees(items@)),
            None => !(json_tree(*value) is Array),
        },
;

/// `serde_json::Value::as_str`: the text of a string, `None` for any other
/// value.
pub assume_specification<'a>[ serde_json::Value::as_str ](value: &'a Value) -> (text: Option<
    &'a str,
>)
    ensures
        match text {
            Some(text) => json_tree(*value) == Json::Text(text@),
            None => !(json_tree(*value) is Text),
        },
;

} // verus!
