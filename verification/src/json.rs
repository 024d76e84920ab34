//! The body of a delivery: a JSON document, read with `serde_json`.

use crate::reply::RequestError;
use vstd::prelude::*;
use vstd::string::*;

verus! {

/// `serde_json::Value`, a JSON document. Nothing is assumed of what is inside:
/// it is read through `text_member` alone.
#[verifier::external_type_specification]
#[verifier::external_body]
pub struct ExJsonValue(serde_json::Value);

/// `serde_json::Error`, why a text was not accepted. Nothing is assumed of it.
#[verifier::external_type_specification]
#[verifier::external_body]
pub struct ExJsonError(serde_json::Error);

/// What a JSON document holds as text: its members whose value is a string, by
/// key. A document that is no object holds none.
pub uninterp spec fn text_members(doc: serde_json::Value) -> Map<Seq<char>, Seq<char>>;

/// What `serde_json` makes of a text: `None` where it is no JSON document, else the
/// string members of the document.
pub uninterp spec fn json_text_members(text: Seq<char>) -> Option<Map<Seq<char>, Seq<char>>>;

/// `serde_json::from_str`, asked for a `serde_json::Value`. Trusted: whether it
/// accepts a text, and the string members of the document it then returns, depend
/// on the text alone.
#[verifier::external_body]
fn parse_json(text: &str) -> (parsed: Result<serde_json::Value, serde_json::Error>)
    ensures
        match parsed {
            Ok(doc) => json_text_members(text@) == Some(text_members(doc)),
            Err(_) => json_text_members(text@) is None,
        },
{
    serde_json::from_str(text)
}

/// `serde_json::Value::get` with a string key, and `serde_json::Value::as_str` on
/// what it finds. Trusted: the answer is the member's text where the document is
/// an object that has the key with a string for its value, and `None` otherwise.
#[verifier::external_body]
fn text_member<'a>(doc: &'a serde_json::Value, key: &str) -> (member: Option<&'a str>)
    ensures
        match member {
            Some(text) => text_members(*doc).contains_key(key@) && text_members(*doc)[key@]
                == text@,
            None => !text_members(*doc).contains_key(key@),
        },
{
    doc.get(key).and_then(serde_json::Value::as_str)
}

/// The three members that a delivery is made of, each present or not.
pub struct CallbackFields {
    pub code: Option<String>,
    pub nonce: Option<String>,
    pub state: Option<String>,
}

/// The members of a delivery in specifications.
pub struct FieldsView {
    pub code: Option<Seq<char>>,
    pub nonce: Option<Seq<char>>,
    pub state: Option<Seq<char>>,
}

/// An optional text as an optional sequence of characters.
pub open spec fn text_view(text: Option<String>) -> Option<Seq<char>> {
    match text {
        Some(t) => Some(t@),
        None => None,
    }
}

impl View for CallbackFields {
    type V = FieldsView;

    open spec fn view(&self) -> FieldsView {
        FieldsView {
            code: text_view(self.code),
            nonce: text_view(self.nonce),
            state: text_view(self.state),
        }
    }
}

/// The text under `key`, if there is one.
pub open spec fn member_of(members: Map<Seq<char>, Seq<char>>, key: Seq<char>) -> Option<
    Seq<char>,
> {
    if members.contains_key(key) {
        Some(members[key])
    } else {
        None
    }
}

/// The members `code`, `nonce` and `state` among the string members of a document.
pub open spec fn fields_of(members: Map<Seq<char>, Seq<char>>) -> FieldsView {
    FieldsView {
        code: member_of(members, "code"@),
        nonce: member_of(members, "nonce"@),
        state: member_of(members, "state"@),
    }
}

/// What the text of a body amounts to: its three members, or the reason why it
/// has none.
pub open spec fn body_fields(text: Seq<char>) -> Result<FieldsView, RequestError> {
    match json_text_members(text) {
        Some(members) => Ok(fields_of(members)),
        None => Err(RequestError::InvalidJson),
    }
}

/// A copy of the member under `key`, if the document has one that is a string.
fn owned_member(doc: &serde_json::Value, key: &str) -> (member: Option<String>)
    ensures
        text_view(member) == member_of(text_members(*doc), key@),
{
    match text_member(doc, key) {
        Some(text) => Some(String::from_str(text)),
        None => None,
    }
}

/// Reads `code`, `nonce` and `state` from a document. A member that is absent, or
/// that is no string, is `None`.
pub fn read_fields(doc: &serde_json::Value) -> (fields: CallbackFields)
    ensures
        fields@ == fields_of(text_members(*doc)),
{
    CallbackFields {
        code: owned_member(doc, "code"),
        nonce: owned_member(doc, "nonce"),
        state: owned_member(doc, "state"),
    }
}

/// Parses the text of a body and reads its three members. A text that is no
/// JSON document is turned down as `InvalidJson`.
pub fn parse_fields(text: &str) -> (parsed: Result<CallbackFields, RequestError>)
    ensures
        match body_fields(text@) {
            Ok(fields) => parsed matches Ok(found) && found@ == fields,
            Err(error) => parsed == Err::<CallbackFields, RequestError>(error),
        },
{
    match parse_json(text) {
        Ok(doc) => Ok(read_fields(&doc)),
        Err(_) => Err(RequestError::InvalidJson),
    }
}

} // verus!
