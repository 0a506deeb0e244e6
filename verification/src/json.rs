//! The boundary to `serde_json`: what the library takes from it on trust.
//!
//! Two things are left to `serde_json`: writing a string as a JSON string
//! literal, and parsing a text into a JSON document. Each result is a
//! function of the text handed in, and gets a name here; the packet format
//! is stated over these names.

use vstd::prelude::*;

verus! {

/// `serde_json::Value`, a parsed JSON document. Nothing is known of what
/// one holds but through `document_members`.
#[verifier::external_type_specification]
#[verifier::external_body]
pub struct ExJsonValue(serde_json::Value);

/// `serde_json::Error`, the error of writing or reading JSON. The library
/// only tells it apart from success and reports an error of its own.
#[verifier::external_type_specification]
#[verifier::external_body]
pub struct ExJsonError(serde_json::Error);

/// What a JSON object holds under one key, as far as a packet reads it.
#[derive(Debug)]
pub enum Field {
    /// The JSON value `null`.
    Null,
    /// A JSON string, with its escapes resolved.
    Text(String),
    /// A boolean, a number, an array or an object.
    Other,
}

/// A `Field` with its text as a sequence of characters.
pub enum FieldView {
    Null,
    Text(Seq<char>),
    Other,
}

impl View for Field {
    type V = FieldView;

    open spec fn view(&self) -> FieldView {
        match self {
            Field::Null => FieldView::Null,
            Field::Text(s) => FieldView::Text(s@),
            Field::Other => FieldView::Other,
        }
    }
}

/// The JSON string literal that `serde_json::to_string` writes for `text`,
/// or `None` where it reports an error.
pub uninterp spec fn json_string(text: Seq<char>) -> Option<Seq<char>>;

/// The members of the document that `serde_json::from_str` reads from
/// `text`, or `None` where it reports an error.
pub uninterp spec fn json_document(text: Seq<char>) -> Option<Map<Seq<char>, FieldView>>;

/// The members of a parsed document, by key: those of the object if the
/// document is one, none otherwise.
pub uninterp spec fn document_members(doc: serde_json::Value) -> Map<Seq<char>, FieldView>;

/// What `members` holds under `key`.
pub open spec fn member(members: Map<Seq<char>, FieldView>, key: Seq<char>) -> Option<FieldView> {
    if members.contains_key(key) {
        Some(members[key])
    } else {
        None
    }
}

/// The view of a field that may be absent.
pub open spec fn field_view(field: Option<Field>) -> Option<FieldView> {
    match field {
        Some(f) => Some(f@),
        None => None,
    }
}

/// Calls `serde_json::to_string` on a string. The result is the string as a
/// JSON string literal, a function of the characters handed in. The literal
/// holds no line feed: `serde_json` writes one inside a string as a
/// backslash and the letter `n`.
#[verifier::external_body]
pub(crate) fn quote(text: &str) -> (r: Result<String, serde_json::Error>)
    ensures
        match r {
            Ok(literal) => json_string(text@) == Some(literal@),
            Err(_) => json_string(text@) is None,
        },
        r matches Ok(literal) ==> !literal@.contains('\n'),
{
    serde_json::to_string(text)
}

/// Calls `serde_json::from_str` for a `serde_json::Value`. Whether the text
/// parses, and what the document then holds, is a function of the text.
#[verifier::external_body]
pub(crate) fn parse(text: &str) -> (r: Result<serde_json::Value, serde_json::Error>)
    ensures
        match r {
            Ok(doc) => json_document(text@) == Some(document_members(doc)),
            Err(_) => json_document(text@) is None,
        },
{
    serde_json::from_str::<serde_json::Value>(text)
}

/// Calls `serde_json::Value::get` with a string key, which finds a member
/// only in an object, and tells the variants of the value found apart.
#[verifier::external_body]
pub(crate) fn lookup(doc: &serde_json::Value, key: &str) -> (r: Option<Field>)
    ensures
        field_view(r) == member(document_members(*doc), key@),
{
    match doc.get(key) {
        None => None,
        Some(serde_json::Value::Null) => Some(Field::Null),
        Some(serde_json::Value::String(s)) => Some(Field::Text(s.clone())),
        Some(serde_json::Value::Bool(_)) => Some(Field::Other),
        Some(serde_json::Value::Number(_)) => Some(Field::Other),
        Some(serde_json::Value::Array(_)) => Some(Field::Other),
        Some(serde_json::Value::Object(_)) => Some(Field::Other),
    }
}

} // verus!
