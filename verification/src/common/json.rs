//! Structured details of an error, built field by field and handed to
//! `serde_json` as one document.

use crate::common::text::views;
use vstd::prelude::*;

verus! {

/// Opaque JSON document of `serde_json`; the library builds such values
/// and carries them without looking inside.
#[verifier::external_type_specification]
#[verifier::external_body]
pub struct ExJsonValue(serde_json::Value);

/// `Clone` of `serde_json::Value`: the copy is the same document.
pub assume_specification[ <serde_json::Value as Clone>::clone ](doc: &serde_json::Value) -> (copy:
    serde_json::Value)
    ensures
        copy == *doc,
;

/// One value of a details object.
#[derive(Debug, Clone)]
pub enum DetailValue {
    /// A string.
    Text(String),
    /// A non-negative number.
    Number(u64),
    /// A list of strings.
    List(Vec<String>),
    /// A JSON document, put in as it is.
    Json(serde_json::Value),
}

/// What a details value says.
pub enum DetailValueView {
    Text(Seq<char>),
    Number(u64),
    List(Seq<Seq<char>>),
    Json(serde_json::Value),
}

impl View for DetailValue {
    type V = DetailValueView;

    open spec fn view(&self) -> DetailValueView {
        match self {
            DetailValue::Text(t) => DetailValueView::Text(t@),
            DetailValue::Number(n) => DetailValueView::Number(*n),
            DetailValue::List(items) => DetailValueView::List(views(items@)),
            DetailValue::Json(doc) => DetailValueView::Json(*doc),
        }
    }
}

/// The keys and values of a list of fields, in order.
pub open spec fn fields_view(fields: Seq<(String, DetailValue)>) -> Seq<(Seq<char>, DetailValueView)> {
    Seq::new(fields.len(), |i: int| (fields[i].0@, fields[i].1@))
}

/// The JSON object that `serde_json` builds from the given fields, put in
/// one after another: a text as a JSON string, a number as a JSON number,
/// a list as a JSON array of strings, a document as itself.
pub uninterp spec fn json_object(fields: Seq<(Seq<char>, DetailValueView)>) -> serde_json::Value;

/// Builds a `serde_json::Value::Object` by inserting the fields in order
/// into a `serde_json::Map`; the document depends on the keys and values
/// alone.
#[verifier::external_body]
pub(crate) fn build_json_object(fields: &Vec<(String, DetailValue)>) -> (doc: serde_json::Value)
    ensures
        doc == json_object(fields_view(fields@)),
{
    let mut object = serde_json::Map::new();
    for (key, value) in fields {
        let item = match value {
            DetailValue::Text(text) => serde_json::Value::String(text.clone()),
            DetailValue::Number(number) => serde_json::Value::from(*number),
            DetailValue::List(items) => serde_json::Value::from(items.clone()),
            DetailValue::Json(doc) => doc.clone(),
        };
        object.insert(key.clone(), item);
    }
    serde_json::Value::Object(object)
}

/// The text that `serde_json` writes for a document: compact JSON.
pub uninterp spec fn json_text(doc: serde_json::Value) -> Seq<char>;

/// Renders a document with the `Display` of `serde_json::Value`, which
/// writes compact JSON; the text depends on the document alone.
#[verifier::external_body]
pub(crate) fn render_json(doc: &serde_json::Value) -> (text: String)
    ensures
        text@ == json_text(*doc),
{
    doc.to_string()
}

/// A document field.
pub fn json_field(key: &str, value: serde_json::Value) -> (field: (String, DetailValue))
    ensures
        field.0@ == key@,
        field.1@ == DetailValueView::Json(value),
{
    (String::from_str(key), DetailValue::Json(value))
}

/// A text field.
pub fn text_field(key: &str, value: &str) -> (field: (String, DetailValue))
    ensures
        field.0@ == key@,
        field.1@ == DetailValueView::Text(value@),
{
    (String::from_str(key), DetailValue::Text(String::from_str(value)))
}

/// A number field.
pub fn number_field(key: &str, value: u64) -> (field: (String, DetailValue))
    ensures
        field.0@ == key@,
        field.1@ == DetailValueView::Number(value),
{
    (String::from_str(key), DetailValue::Number(value))
}

/// A list field.
pub fn list_field(key: &str, value: Vec<String>) -> (field: (String, DetailValue))
    ensures
        field.0@ == key@,
        field.1@ == DetailValueView::List(views(value@)),
{
    (String::from_str(key), DetailValue::List(value))
}

} // verus!
