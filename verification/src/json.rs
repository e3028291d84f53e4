//! JSON documents.
//!
//! A document is a `serde_json::Value`. Verus cannot look inside one, so the
//! contracts of this crate speak of [`JsonView`], the tree that a value holds,
//! and every operation on a value goes through one of the functions below.
//! Their contracts are taken from `serde_json`'s documentation and are not
//! proved here.

use crate::assoc::{distinct_names, first_named};
use serde_json::Value;
use vstd::prelude::*;

verus! {

/// `serde_json::Value`: a JSON document. Nothing is known of it but what
/// the contracts below say.
#[verifier::external_type_specification]
#[verifier::external_body]
pub struct ExValue(serde_json::Value);

/// `serde_json::Error`: why a text could not be read. It is carried, never
/// looked at.
#[verifier::external_type_specification]
#[verifier::external_body]
pub struct ExJsonError(serde_json::Error);

/// A JSON document as a mathematical tree.
pub enum JsonView {
    Null,
    Bool(bool),
    /// A number, by the text that it is printed as.
    Number(Seq<char>),
    Text(Seq<char>),
    Array(Seq<JsonView>),
    /// The members of an object, in the order in which the value holds them.
    Object(Seq<(Seq<char>, JsonView)>),
}

/// The tree that `value` holds.
pub uninterp spec fn value_view(value: Value) -> JsonView;

/// The document that `text` is read as; nothing where it is not read as one
/// JSON document.
pub uninterp spec fn json_document(text: Seq<char>) -> Option<JsonView>;

/// The compact text that `document` is printed as.
pub uninterp spec fn json_text(document: JsonView) -> Seq<char>;

/// The trees of a sequence of values.
pub open spec fn values_view(values: Seq<Value>) -> Seq<JsonView> {
    values.map_values(|v: Value| value_view(v))
}

/// The names and trees of a sequence of members.
pub open spec fn members_view(members: Seq<(String, Value)>) -> Seq<(Seq<char>, JsonView)> {
    members.map_values(|m: (String, Value)| (m.0@, value_view(m.1)))
}

impl JsonView {
    /// The member of an object that is named `key`; nothing for any other
    /// kind of document.
    pub open spec fn member(self, key: Seq<char>) -> Option<JsonView> {
        match self {
            JsonView::Object(members) => first_named(members, key),
            _ => None,
        }
    }
}

/// `serde_json::Value::as_str`: the text of a string value, nothing for any
/// other value.
pub assume_specification<'a>[ Value::as_str ](value: &'a Value) -> (text: Option<&'a str>)
    ensures
        match text {
            Some(s) => value_view(*value) == JsonView::Text(s@),
            None => !(value_view(*value) is Text),
        },
;

/// `serde_json::Value::as_array`: the items of an array value, nothing for
/// any other value.
pub assume_specification<'a>[ Value::as_array ](value: &'a Value) -> (items: Option<
    &'a Vec<Value>,
>)
    ensures
        match items {
            Some(v) => value_view(*value) == JsonView::Array(values_view(v@)),
            None => !(value_view(*value) is Array),
        },
;

/// `serde_json::Value::is_null`: whether the value is `null`.
pub assume_specification[ Value::is_null ](value: &Value) -> (null: bool)
    ensures
        null == (value_view(*value) is Null),
;

/// `Clone` for `serde_json::Value`: the copy holds the same tree.
pub assume_specification[ <Value as Clone>::clone ](value: &Value) -> (copy: Value)
    ensures
        value_view(copy) == value_view(*value),
;

/// `serde_json::Value::get` with a string index: the member of an object
/// value that has this name, nothing where the value is no object or has no
/// such member.
#[verifier::external_body]
pub(crate) fn member<'a>(value: &'a Value, key: &str) -> (found: Option<&'a Value>)
    ensures
        match found {
            Some(v) => value_view(*value).member(key@) == Some(value_view(*v)),
            None => value_view(*value).member(key@) is None,
        },
{
    value.get(key)
}

/// `serde_json::Value::Null`.
#[verifier::external_body]
pub(crate) fn null_value() -> (value: Value)
    ensures
        value_view(value) == JsonView::Null,
{
    Value::Null
}

/// `serde_json::Value::String`: the string value with this text.
#[verifier::external_body]
pub(crate) fn text_value(text: String) -> (value: Value)
    ensures
        value_view(value) == JsonView::Text(text@),
{
    Value::String(text)
}

/// `serde_json::Value::Array`: the array value with these items.
#[verifier::external_body]
pub(crate) fn array_value(items: Vec<Value>) -> (value: Value)
    ensures
        value_view(value) == JsonView::Array(values_view(items@)),
{
    Value::Array(items)
}

/// `serde_json::Value::Object` over a `serde_json::Map` collected from the
/// members. With the feature `preserve_order`, which this crate asks for, the
/// map keeps members with distinct names in the order in which they come.
#[verifier::external_body]
pub(crate) fn object_value(members: Vec<(String, Value)>) -> (value: Value)
    requires
        distinct_names(members_view(members@)),
    ensures
        value_view(value) == JsonView::Object(members_view(members@)),
{
    Value::Object(members.into_iter().collect())
}

/// `serde_json::from_str` at `serde_json::Value`: reads a whole text as one
/// JSON document.
#[verifier::external_body]
pub(crate) fn read(text: &str) -> (outcome: Result<Value, serde_json::Error>)
    ensures
        match outcome {
            Ok(value) => json_document(text@) == Some(value_view(value)),
            Err(_) => json_document(text@) is None,
        },
{
    serde_json::from_str::<Value>(text)
}

/// `to_string` of a `serde_json::Value`, which is its `Display`: the compact
/// JSON text of the value.
#[verifier::external_body]
pub(crate) fn print(value: &Value) -> (text: String)
    ensures
        text@ == json_text(value_view(*value)),
{
    value.to_string()
}

/// Copies of the values of a sequence, in their order.
pub fn clone_values(values: &Vec<Value>) -> (copies: Vec<Value>)
    ensures
        values_view(copies@) == values_view(values@),
{
    let mut copies: Vec<Value> = Vec::new();
    let mut i: usize = 0;
    while i < values.len()
        invariant
            i <= values.len(),
            copies@.len() == i,
            forall|j: int|
                0 <= j < i ==> value_view(#[trigger] copies@[j]) == value_view(values@[j]),
        decreases values.len() - i,
    {
        copies.push(values[i].clone());
        i += 1;
    }
    copies
}

/// Reads `text` as a JSON document.
pub fn parse(text: &str) -> (document: Option<Value>)
    ensures
        match document {
            Some(value) => json_document(text@) == Some(value_view(value)),
            None => json_document(text@) is None,
        },
{
    match read(text) {
        Ok(value) => Some(value),
        Err(_) => None,
    }
}

} // verus!
