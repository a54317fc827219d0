//! JSON documents, as the `serde_json` crate parses and prints them.
//!
//! A document is carried as a `serde_json::Value`. What it holds is spoken of
//! through `json_tree`, its mathematical model. The functions of this module
//! that call the crate are believed, not proved: each says which function it
//! calls and what is claimed of it.

use vstd::prelude::*;
use vstd::string::StringSliceAdditionalSpecFns;

verus! {

/// A JSON document as a value. A number is kept as an unread text.
pub enum JsonTree {
    Null,
    Bool(bool),
    Number(Seq<char>),
    Text(Seq<char>),
    List(Seq<JsonTree>),
    Object(Map<Seq<char>, JsonTree>),
}

/// The type `serde_json::Value`, a parsed JSON document.
#[verifier::external_type_specification]
#[verifier::external_body]
pub struct ExJsonValue(serde_json::Value);

/// The type `serde_json::Error`, which says why a text is no JSON document.
#[verifier::external_type_specification]
#[verifier::external_body]
pub struct ExJsonError(serde_json::Error);

/// What a `serde_json::Value` holds.
pub uninterp spec fn json_tree(value: serde_json::Value) -> JsonTree;

/// What `serde_json::from_slice` makes of a text: the document that it parses
/// to, or nothing where it refuses the text.
pub uninterp spec fn json_parsed(text: Seq<u8>) -> Option<JsonTree>;

/// The text that `serde_json` prints for a document, in its compact form.
pub uninterp spec fn json_rendered(tree: JsonTree) -> Seq<char>;

/// The member `key` of an object; null where `tree` is no object or has no
/// such member.
pub open spec fn member_of(tree: JsonTree, key: Seq<char>) -> JsonTree {
    match tree {
        JsonTree::Object(members) => if members.dom().contains(key) {
            members[key]
        } else {
            JsonTree::Null
        },
        _ => JsonTree::Null,
    }
}

/// The element at `index` of a list; null where `tree` is no list or is too
/// short.
pub open spec fn element_of(tree: JsonTree, index: int) -> JsonTree {
    match tree {
        JsonTree::List(items) => if 0 <= index < items.len() {
            items[index]
        } else {
            JsonTree::Null
        },
        _ => JsonTree::Null,
    }
}

/// The text of a string; nothing where `tree` is no string.
pub open spec fn text_of(tree: JsonTree) -> Option<Seq<char>> {
    match tree {
        JsonTree::Text(text) => Some(text),
        _ => None,
    }
}

/// The number of elements of a list; nothing where `tree` is no list.
pub open spec fn length_of(tree: JsonTree) -> Option<nat> {
    match tree {
        JsonTree::List(items) => Some(items.len()),
        _ => None,
    }
}

/// Calls `serde_json::from_slice` on the bytes of `text`. Claimed: what comes
/// back depends on the bytes alone; on success it is the document that
/// `json_parsed` names, and the call fails exactly where `json_parsed` names
/// none.
#[verifier::external_body]
pub(crate) fn parse_json(text: &str) -> (parsed: Result<serde_json::Value, serde_json::Error>)
    ensures
        match parsed {
            Ok(value) => json_parsed(text.spec_bytes()) == Some(json_tree(value)),
            Err(_) => json_parsed(text.spec_bytes()) is None,
        },
{
    serde_json::from_slice::<serde_json::Value>(text.as_bytes())
}

/// Calls `to_string` of `serde_json::Error`, which gives the error's message.
/// Nothing is claimed of the text.
#[verifier::external_body]
pub(crate) fn json_error_text(error: &serde_json::Error) -> (text: String) {
    error.to_string()
}

/// Indexes a `serde_json::Value` by a key, with `[..]`. Claimed, as the
/// crate's index operator is documented: the member of that name where the
/// value is an object that has one, a null value otherwise.
#[verifier::external_body]
pub(crate) fn json_member<'a>(value: &'a serde_json::Value, key: &str) -> (member:
    &'a serde_json::Value)
    ensures
        json_tree(*member) == member_of(json_tree(*value), key@),
{
    &value[key]
}

/// Indexes a `serde_json::Value` by a position, with `[..]`. Claimed, as the
/// crate's index operator is documented: the element at that position where
/// the value is an array that is long enough, a null value otherwise.
#[verifier::external_body]
pub(crate) fn json_element<'a>(value: &'a serde_json::Value, index: usize) -> (element:
    &'a serde_json::Value)
    ensures
        json_tree(*element) == element_of(json_tree(*value), index as int),
{
    &value[index]
}

/// Calls `serde_json::Value::as_str` and copies what it gives. Claimed: the
/// text where the value is a string, nothing otherwise.
#[verifier::external_body]
pub(crate) fn json_text(value: &serde_json::Value) -> (text: Option<String>)
    ensures
        match text {
            Some(text) => text_of(json_tree(*value)) == Some(text@),
            None => text_of(json_tree(*value)) is None,
        },
{
    match value.as_str() {
        Some(text) => Some(text.to_string()),
        None => None,
    }
}

/// Calls `serde_json::Value::as_array` and takes the length of what it gives.
/// Claimed: the number of elements where the value is an array, nothing
/// otherwise.
#[verifier::external_body]
pub(crate) fn json_length(value: &serde_json::Value) -> (length: Option<usize>)
    ensures
        match length {
            Some(length) => length_of(json_tree(*value)) == Some(length as nat),
            None => length_of(json_tree(*value)) is None,
        },
{
    match value.as_array() {
        Some(items) => Some(items.len()),
        None => None,
    }
}

/// Calls `to_string` of `serde_json::Value`, which prints the document in its
/// compact form. Claimed: the text depends on what the value holds alone, and
/// is the one that `json_rendered` names.
#[verifier::external_body]
pub(crate) fn render_json(value: &serde_json::Value) -> (text: String)
    ensures
        text@ == json_rendered(json_tree(*value)),
{
    value.to_string()
}

} // verus!
