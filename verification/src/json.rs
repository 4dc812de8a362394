//! Payloads are JSON documents. They are carried through as they come; the
//! few members that decisions depend on are read out here.

use vstd::prelude::*;

verus! {

/// `serde_json::Value`: a JSON document. Nothing of its inside is seen here.
#[verifier::external_type_specification]
#[verifier::external_body]
pub struct ExJsonValue(serde_json::Value);

/// `serde_json::Error`: why a text could not be read, or a document not
/// written.
#[verifier::external_type_specification]
#[verifier::external_body]
pub struct ExJsonError(serde_json::Error);

/// What a document holds under a key, as far as text goes.
#[derive(Clone, Debug)]
pub enum JsonField {
    /// The document is no object, or the object has no such member.
    Absent,
    /// The member is there and is no string.
    NotText,
    /// The member is this string.
    Text(String),
}

/// The document that `serde_json::from_str` reads out of `text`; `None` where
/// it reads none. The outcome depends on the text alone.
pub uninterp spec fn json_document(text: Seq<char>) -> Option<serde_json::Value>;

/// The members of a JSON object by key: the text of a member that is a string,
/// `None` for a member of another kind. A document that is no object has no
/// members.
pub uninterp spec fn text_members(value: serde_json::Value) -> Map<Seq<char>, Option<Seq<char>>>;

/// A document written out as compact JSON text, as `serde_json::to_string`
/// writes it: the text depends on the document alone. `None` for a document
/// that cannot be written.
pub uninterp spec fn json_text(value: serde_json::Value) -> Option<Seq<char>>;

/// The elements of the member of a JSON object under `key`, in their order,
/// where that member is an array. `None` where the document is no object, has
/// no such member, or the member is of another kind.
pub uninterp spec fn array_items(value: serde_json::Value, key: Seq<char>) -> Option<
    Seq<serde_json::Value>,
>;

/// What `JsonField` stands for, in the terms of [`text_members`].
pub open spec fn field_of(value: serde_json::Value, key: Seq<char>) -> Option<Option<Seq<char>>> {
    if text_members(value).contains_key(key) {
        Some(text_members(value)[key])
    } else {
        None
    }
}

impl JsonField {
    /// The field as what [`field_of`] gives.
    pub open spec fn spec_value(self) -> Option<Option<Seq<char>>> {
        match self {
            JsonField::Absent => None,
            JsonField::NotText => Some(None),
            JsonField::Text(s) => Some(Some(s@)),
        }
    }
}

/// `serde_json::from_str` at type `serde_json::Value`: the document that
/// `text` denotes, or why it denotes none. The outcome depends on the text
/// alone; which document it is, is not spelled out.
#[verifier::external_body]
pub(crate) fn parse(text: &str) -> (r: Result<serde_json::Value, serde_json::Error>)
    ensures
        match r {
            Ok(document) => json_document(text@) == Some(document),
            Err(_) => json_document(text@) is None,
        },
{
    serde_json::from_str::<serde_json::Value>(text)
}

/// `serde_json::to_string` on a document: its text in compact form, or why
/// it cannot be written. The outcome depends on the document alone; what the
/// text is, is not spelled out.
#[verifier::external_body]
pub(crate) fn serialize(value: &serde_json::Value) -> (r: Result<String, serde_json::Error>)
    ensures
        match r {
            Ok(text) => json_text(*value) == Some(text@),
            Err(_) => json_text(*value) is None,
        },
{
    serde_json::to_string(value)
}

/// `to_string` of a `serde_json::Error`: the error in words. Nothing is
/// claimed of them.
#[verifier::external_body]
pub(crate) fn error_text(error: &serde_json::Error) -> (text: String) {
    error.to_string()
}

/// `clone` of a `serde_json::Value`: a document equal to the given one.
pub assume_specification[ <serde_json::Value as Clone>::clone ](value: &serde_json::Value) -> (r:
    serde_json::Value)
    ensures
        r == *value,
;

/// `serde_json::Value::get` with a string key, the member then told apart by
/// `as_str`: absent, present and no string, or the string.
#[verifier::external_body]
pub(crate) fn text_field(value: &serde_json::Value, key: &str) -> (r: JsonField)
    ensures
        r.spec_value() == (if text_members(*value).contains_key(key@) {
            Some(text_members(*value)[key@])
        } else {
            None
        }),
{
    match value.get(key) {
        None => JsonField::Absent,
        Some(member) => match member.as_str() {
            None => JsonField::NotText,
            Some(text) => JsonField::Text(text.to_string()),
        },
    }
}

/// `serde_json::Value::get` with a string key, the member then taken by
/// `as_array`: a copy of the elements, in their order, where the member is an
/// array, `None` where it is absent or of another kind.
#[verifier::external_body]
pub(crate) fn array_field(value: &serde_json::Value, key: &str) -> (r: Option<Vec<serde_json::Value>>)
    ensures
        match r {
            Some(items) => array_items(*value, key@) == Some(items@),
            None => array_items(*value, key@) is None,
        },
{
    match value.get(key) {
        None => None,
        Some(member) => match member.as_array() {
            None => None,
            Some(items) => Some(items.clone()),
        },
    }
}

} // verus!
