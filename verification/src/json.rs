//! JSON documents, as `serde_json` reads, holds and writes them.
//!
//! Nothing in this module is proved. It states what the rest of the crate
//! takes for granted about `serde_json`, built with its default features:
//! objects are kept sorted by key, so the text written for a document depends
//! on the document alone.

use vstd::prelude::*;
use serde_json::Value;

verus! {

/// A JSON document as a mathematical value.
pub enum JsonTree {
    Null,
    Bool(bool),
    /// A number, by the characters that stand for it in JSON text.
    Number(Seq<char>),
    Text(Seq<char>),
    Array(Seq<JsonTree>),
    /// An object: each key occurs once, and their order carries no meaning.
    Object(Map<Seq<char>, JsonTree>),
}

/// `serde_json::Value`, a JSON document in memory. What it holds is known
/// only through `value_tree`.
#[verifier::external_type_specification]
#[verifier::external_body]
pub struct ExValue(serde_json::Value);

/// `serde_json::Error`, the error of the JSON reader and writer. Nothing is
/// known of what it holds.
#[verifier::external_type_specification]
#[verifier::external_body]
pub struct ExError(serde_json::Error);

/// The document that a `serde_json::Value` holds.
pub uninterp spec fn value_tree(v: Value) -> JsonTree;

/// The document that `serde_json::from_str` reads from a text, or `None`
/// where it reports an error.
pub uninterp spec fn json_parse(text: Seq<char>) -> Option<JsonTree>;

/// The text that `serde_json::to_string_pretty` writes for a document, or
/// `None` where it reports an error.
pub uninterp spec fn json_pretty(tree: JsonTree) -> Option<Seq<char>>;

/// The documents held by a list of values, in order.
pub open spec fn item_trees(items: Seq<Value>) -> Seq<JsonTree> {
    items.map_values(|v: Value| value_tree(v))
}

/// The object made by adding the members one after the other.
pub open spec fn member_trees(members: Seq<(String, Value)>) -> Map<Seq<char>, JsonTree>
    decreases members.len(),
{
    if members.len() == 0 {
        Map::empty()
    } else {
        member_trees(members.drop_last()).insert(
            members.last().0@,
            value_tree(members.last().1),
        )
    }
}

/// No two members have the same key.
pub open spec fn distinct_keys(members: Seq<(String, Value)>) -> bool {
    forall|i: int, j: int|
        0 <= i < j < members.len() ==> (#[trigger] members[i]).0@ != (#[trigger] members[j]).0@
}

/// `serde_json::Value::as_bool`: the truth value of a JSON boolean, and
/// `None` for every other kind of document.
pub assume_specification[ Value::as_bool ](v: &Value) -> (b: Option<bool>)
    ensures
        b == match value_tree(*v) {
            JsonTree::Bool(x) => Some(x),
            _ => None,
        },
;

/// `serde_json::Value::as_str`: the characters of a JSON string, and `None`
/// for every other kind of document.
pub assume_specification<'a>[ Value::as_str ](v: &'a Value) -> (s: Option<&'a str>)
    ensures
        match value_tree(*v) {
            JsonTree::Text(chars) => s matches Some(text) && text@ == chars,
            _ => s is None,
        },
;

/// `serde_json::Value::as_array`: the items of a JSON array in order, and
/// `None` for every other kind of document.
pub assume_specification<'a>[ Value::as_array ](v: &'a Value) -> (items: Option<&'a Vec<Value>>)
    ensures
        match value_tree(*v) {
            JsonTree::Array(trees) => items matches Some(list) && item_trees(list@) == trees,
            _ => items is None,
        },
;

/// `serde_json::Value::get` with a string index: the member of a JSON object
/// under `key`, and `None` where the object has no such key or the document
/// is no object.
#[verifier::external_body]
pub(crate) fn member<'a>(v: &'a Value, key: &str) -> (found: Option<&'a Value>)
    ensures
        match value_tree(*v) {
            JsonTree::Object(members) => if members.contains_key(key@) {
                found matches Some(inner) && value_tree(*inner) == members[key@]
            } else {
                found is None
            },
            _ => found is None,
        },
{
    v.get(key)
}

/// `serde_json::Value::Bool`: the JSON boolean with the given truth value.
#[verifier::external_body]
pub(crate) fn bool_value(b: bool) -> (v: Value)
    ensures
        value_tree(v) == JsonTree::Bool(b),
{
    Value::Bool(b)
}

/// `serde_json::Value::String`: the JSON string with the given characters.
#[verifier::external_body]
pub(crate) fn text_value(s: String) -> (v: Value)
    ensures
        value_tree(v) == JsonTree::Text(s@),
{
    Value::String(s)
}

/// `serde_json::Value::Array`: the JSON array of the given items, in order.
#[verifier::external_body]
pub(crate) fn array_value(items: Vec<Value>) -> (v: Value)
    ensures
        value_tree(v) == JsonTree::Array(item_trees(items@)),
{
    Value::Array(items)
}

/// `FromIterator<(String, Value)>` of `serde_json::Value`: the JSON object
/// with the given members. Called only with keys that differ from each
/// other, so that no member is dropped.
#[verifier::external_body]
pub(crate) fn object_value(members: Vec<(String, Value)>) -> (v: Value)
    requires
        distinct_keys(members@),
    ensures
        value_tree(v) == JsonTree::Object(member_trees(members@)),
{
    Value::from_iter(members)
}

/// `serde_json::from_str` at `serde_json::Value`: the value holds the
/// document read from the text; an error comes exactly where the text is not
/// one JSON document.
#[verifier::external_body]
pub(crate) fn parse_value(text: &str) -> (parsed: Result<Value, serde_json::Error>)
    ensures
        match parsed {
            Ok(v) => json_parse(text@) == Some(value_tree(v)),
            Err(_) => json_parse(text@) is None,
        },
{
    serde_json::from_str::<Value>(text)
}

/// `serde_json::to_string_pretty` at `serde_json::Value`: the indented text
/// of the document that the value holds.
#[verifier::external_body]
pub(crate) fn pretty_text(v: &Value) -> (written: Result<String, serde_json::Error>)
    ensures
        match written {
            Ok(text) => json_pretty(value_tree(*v)) == Some(text@),
            Err(_) => json_pretty(value_tree(*v)) is None,
        },
{
    serde_json::to_string_pretty(v)
}

} // verus!
