//! Reading the fields of a JSON document, through `serde_json`.
//!
//! The parser and its values are taken on trust: this module gives them
//! names, and says of each call only that its result is the named function
//! of its arguments. What a field has to hold is decided elsewhere, in
//! verified code, on the plain [`Field`] values that come out of here.

use vstd::prelude::*;

verus! {

/// A parsed JSON value. Nothing inside it is visible to the verifier.
#[verifier::external_type_specification]
#[verifier::external_body]
pub struct ExValue(serde_json::Value);

/// The error of a failed parse.
#[verifier::external_type_specification]
#[verifier::external_body]
pub struct ExParseError(serde_json::Error);

/// What a document holds under a key, as far as the catalog reads it.
#[derive(Debug, Clone, PartialEq, Eq)]
pub enum Field {
    /// The document is no object, or has no such key.
    Absent,
    /// The key is there with the value `null`.
    Null,
    /// A string.
    Text(String),
    /// A number, with its value where it is an integer from 0 to `u64::MAX`.
    Number(Option<u64>),
    /// A boolean, an array or an object.
    Other,
}

/// The value of a [`Field`], with its string as a sequence of characters.
pub enum FieldView {
    Absent,
    Null,
    Text(Seq<char>),
    Number(Option<u64>),
    Other,
}

impl View for Field {
    type V = FieldView;

    open spec fn view(&self) -> FieldView {
        match self {
            Field::Absent => FieldView::Absent,
            Field::Null => FieldView::Null,
            Field::Text(text) => FieldView::Text(text@),
            Field::Number(number) => FieldView::Number(*number),
            Field::Other => FieldView::Other,
        }
    }
}

/// The document that a text is parsed to; `None` where the text is not one
/// JSON document.
pub uninterp spec fn json_document(text: Seq<char>) -> Option<serde_json::Value>;

/// What a document holds under a key.
pub uninterp spec fn json_field(document: serde_json::Value, key: Seq<char>) -> FieldView;

/// Parses a text as one JSON document.
///
/// Trusted: `serde_json::from_str` is a function of the text alone; it returns
/// an error, and does not panic, on a text that is not one JSON document.
#[verifier::external_body]
pub(crate) fn parse_document(text: &str) -> (parsed: Result<serde_json::Value, serde_json::Error>)
    ensures
        match parsed {
            Ok(document) => json_document(text@) == Some(document),
            Err(_) => json_document(text@) is None,
        },
{
    serde_json::from_str::<serde_json::Value>(text)
}

/// Reads what a document holds under a key.
///
/// Trusted: `serde_json::Value::get` with a string key is a function of the
/// document and the key alone, and so is what this hands out of the value it
/// finds: the string of a string value, and of a number what
/// `serde_json::Number::as_u64` gives.
#[verifier::external_body]
pub(crate) fn read_field(document: &serde_json::Value, key: &str) -> (field: Field)
    ensures
        field@ == json_field(*document, key@),
{
    match document.get(key) {
        None => Field::Absent,
        Some(serde_json::Value::Null) => Field::Null,
        Some(serde_json::Value::String(text)) => Field::Text(text.clone()),
        Some(serde_json::Value::Number(number)) => Field::Number(number.as_u64()),
        Some(serde_json::Value::Bool(_)) => Field::Other,
        Some(serde_json::Value::Array(_)) => Field::Other,
        Some(serde_json::Value::Object(_)) => Field::Other,
    }
}

} // verus!
