//! JSON documents, as `serde_jsonrc` reads and writes them.
//!
//! Parsing and quoting are left to `serde_jsonrc`. What this module says of
//! them is believed, not proved: each such item says so in its comment.

use vstd::prelude::*;

verus! {

/// A parsed JSON document of `serde_jsonrc`. Nothing of its inside is
/// visible here: `json_tree` names what it holds.
#[verifier::external_type_specification]
#[verifier::external_body]
pub struct ExValue(serde_jsonrc::Value);

/// What a JSON document holds. A number's value is not kept: no message of
/// the reminder service is read by one.
pub enum JsonTree {
    Null,
    Bool(bool),
    Number,
    Text(Seq<char>),
    Array(Seq<JsonTree>),
    Object(Map<Seq<char>, JsonTree>),
}

/// The tree that a `serde_jsonrc::Value` holds: `Value::String` is `Text`,
/// `Value::Array` is `Array` with the items in order, `Value::Object` is
/// `Object` with the same keys.
pub uninterp spec fn json_tree(value: serde_jsonrc::Value) -> JsonTree;

/// What `serde_jsonrc::from_str` makes of a text: the tree of the document,
/// or the message of the error.
pub uninterp spec fn json_parsed(text: Seq<char>) -> Result<JsonTree, Seq<char>>;

/// What `serde_jsonrc::to_string` writes for a string: the JSON string
/// literal, quotes and escapes included.
pub uninterp spec fn json_quoted(text: Seq<char>) -> Option<Seq<char>>;

/// Calls `serde_jsonrc::from_str` for a `Value`. Believed: the outcome is a
/// function of the text alone, that is `json_parsed`; an error comes as the
/// text that its `Display` writes.
#[verifier::external_body]
pub(crate) fn parse(text: &str) -> (r: Result<serde_jsonrc::Value, String>)
    ensures
        match r {
            Ok(value) => json_parsed(text@) == Ok::<JsonTree, Seq<char>>(json_tree(value)),
            Err(message) => json_parsed(text@) == Err::<JsonTree, Seq<char>>(message@),
        },
{
    serde_jsonrc::from_str::<serde_jsonrc::Value>(text).map_err(|e| e.to_string())
}

/// Calls `Value::get` with a string key. Believed: it finds the member of
/// that name where the value is an object that has one, and nothing else.
#[verifier::external_body]
pub(crate) fn member<'a>(value: &'a serde_jsonrc::Value, key: &str) -> (r: Option<
    &'a serde_jsonrc::Value,
>)
    ensures
        match r {
            Some(found) => json_tree(*value) is Object && json_tree(
                *value,
            )->Object_0.contains_key(key@) && json_tree(*found) == json_tree(
                *value,
            )->Object_0[key@],
            None => !(json_tree(*value) is Object && json_tree(*value)->Object_0.contains_key(
                key@,
            )),
        },
{
    value.get(key)
}

/// Calls `Value::as_str`. Believed: it hands out the characters of a string
/// value, and nothing for any other value.
#[verifier::external_body]
pub(crate) fn as_text<'a>(value: &'a serde_jsonrc::Value) -> (r: Option<&'a str>)
    ensures
        match r {
            Some(text) => json_tree(*value) == JsonTree::Text(text@),
            None => !(json_tree(*value) is Text),
        },
{
    value.as_str()
}

/// Calls `Value::as_array`. Believed: it hands out the items of an array
/// value in their order, and nothing for any other value.
#[verifier::external_body]
pub(crate) fn as_array<'a>(value: &'a serde_jsonrc::Value) -> (r: Option<
    &'a Vec<serde_jsonrc::Value>,
>)
    ensures
        match r {
            Some(items) => json_tree(*value) is Array && json_tree(*value)->Array_0.len()
                == items@.len() && forall|i: int|
                0 <= i < items@.len() ==> json_tree(#[trigger] items@[i]) == json_tree(
                    *value,
                )->Array_0[i],
            None => !(json_tree(*value) is Array),
        },
{
    value.as_array()
}

/// Calls `serde_jsonrc::to_string` on a string. Believed: the outcome is a
/// function of the characters alone, that is `json_quoted`.
#[verifier::external_body]
pub(crate) fn quote(text: &str) -> (r: Option<String>)
    ensures
        match r {
            Some(literal) => json_quoted(text@) == Some(literal@),
            None => json_quoted(text@) is None,
        },
{
    serde_jsonrc::to_string(text).ok()
}

/// The text of the member `key` of an object, where it has such a member
/// and that is a string.
pub open spec fn text_member(tree: JsonTree, key: Seq<char>) -> Option<Seq<char>> {
    match tree {
        JsonTree::Object(members) => if members.contains_key(key) {
            match members[key] {
                JsonTree::Text(text) => Some(text),
                _ => None,
            }
        } else {
            None
        },
        _ => None,
    }
}

/// Reads the string member `key` of `value`.
pub fn string_member(value: &serde_jsonrc::Value, key: &str) -> (r: Option<String>)
    ensures
        match r {
            Some(text) => text_member(json_tree(*value), key@) == Some(text@),
            None => text_member(json_tree(*value), key@) is None,
        },
{
    match member(value, key) {
        Some(found) => match as_text(found) {
            Some(text) => Some(text.to_owned()),
            None => None,
        },
        None => None,
    }
}

} // verus!
