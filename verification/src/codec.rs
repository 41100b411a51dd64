//! The JSON codec: how requests are read and written.
//!
//! Requests are `serde_json` documents. The verifier cannot look inside one,
//! so everything this crate says about a document is said through a few
//! names: for what a document holds, for the text it is written as, and for
//! the document a text is read as. Those names, and the contracts that tie
//! them to the calls into `serde_json`, are taken on trust; the rest of the
//! crate is proved against them.

use serde_json::{Error, Value};
use vstd::prelude::*;

verus! {

/// `serde_json::Value`, a JSON document. Opaque to the verifier.
#[verifier::external_type_specification]
#[verifier::external_body]
pub struct ExValue(serde_json::Value);

/// `serde_json::Error`, the failure of a codec call. Opaque to the verifier.
#[verifier::external_type_specification]
#[verifier::external_body]
pub struct ExError(serde_json::Error);

/// What a document holds, as far as this crate looks inside one.
pub enum Content {
    /// A JSON boolean.
    Bool(bool),
    /// A JSON object: its members, by key.
    Object(Map<Seq<char>, Value>),
    /// Null, a number, a string or an array.
    Other,
}

/// The content of a document: whether it is a boolean, and which; whether it
/// is an object, and with which members.
pub uninterp spec fn content(value: Value) -> Content;

/// The member of `value` under `key`: present when `value` is an object
/// that has a member of that name.
pub open spec fn member_of(value: Value, key: Seq<char>) -> Option<Value> {
    match content(value) {
        Content::Object(members) => if members.contains_key(key) {
            Some(members[key])
        } else {
            None
        },
        _ => None,
    }
}

/// The boolean that `value` is, if it is one.
pub open spec fn bool_of(value: Value) -> Option<bool> {
    match content(value) {
        Content::Bool(flag) => Some(flag),
        _ => None,
    }
}

/// The answer of `serde_json::to_string` on a document: its compact JSON
/// text, or the error the serialiser gave up with.
pub uninterp spec fn json_text(value: Value) -> Result<Seq<char>, Error>;

/// The answer of `serde_json::from_str` for a document: the document that
/// `text` spells, or the error the parser stopped with.
pub uninterp spec fn json_parsed(text: Seq<char>) -> Result<Value, Error>;

/// What the `Display` impl of `serde_json::Error` prints for `error`.
pub uninterp spec fn error_text(error: Error) -> Seq<char>;

/// Calls `Value::get` with a string key.
///
/// Trusted: an object answers with its member of that name, or with `None`
/// when it has no such member; a document that is no object answers `None`.
#[verifier::external_body]
pub(crate) fn member<'a>(value: &'a Value, key: &str) -> (found: Option<&'a Value>)
    ensures
        match content(*value) {
            Content::Object(members) => match found {
                Some(inner) => members.contains_key(key@) && members[key@] == *inner,
                None => !members.contains_key(key@),
            },
            _ => found.is_none(),
        },
{
    value.get(key)
}

/// `Value::as_bool`, callable from verified code.
///
/// Trusted: a boolean answers with itself; any other document answers `None`.
pub assume_specification[ Value::as_bool ](value: &Value) -> (flag: Option<bool>)
    ensures
        flag == match content(*value) {
            Content::Bool(held) => Some(held),
            _ => None,
        },
;

/// Calls `serde_json::to_string` on a document.
///
/// Trusted: text and error are whatever `json_text` names for this document.
/// Nothing is claimed about when serialisation succeeds.
#[verifier::external_body]
pub(crate) fn to_text(value: &Value) -> (outcome: Result<String, Error>)
    ensures
        match outcome {
            Ok(text) => json_text(*value) == Ok::<Seq<char>, Error>(text@),
            Err(error) => json_text(*value) == Err::<Seq<char>, Error>(error),
        },
{
    serde_json::to_string(value)
}

/// Calls `serde_json::from_str` for a document.
///
/// Trusted: document and error are whatever `json_parsed` names for this
/// text. Nothing is claimed about which texts parse.
#[verifier::external_body]
pub(crate) fn from_text(text: &str) -> (outcome: Result<Value, Error>)
    ensures
        match outcome {
            Ok(value) => json_parsed(text@) == Ok::<Value, Error>(value),
            Err(error) => json_parsed(text@) == Err::<Value, Error>(error),
        },
{
    serde_json::from_str(text)
}

/// Prints a `serde_json::Error` through its `Display` impl.
///
/// Trusted: the text is whatever `error_text` names for this error.
#[verifier::external_body]
pub(crate) fn describe(error: &Error) -> (text: String)
    ensures
        text@ == error_text(*error),
{
    error.to_string()
}

/// Why a document could not be written, or a text could not be read.
#[derive(Debug, Clone)]
pub struct CodecError {
    pub message: String,
}

impl View for CodecError {
    type V = Seq<char>;

    /// A codec error is modelled by its message.
    open spec fn view(&self) -> Seq<char> {
        self.message@
    }
}

/// The compact JSON text of `value`, or the message of the error that
/// serialising it ends in.
pub open spec fn encoded(value: Value) -> Result<Seq<char>, Seq<char>> {
    match json_text(value) {
        Ok(text) => Ok(text),
        Err(error) => Err(error_text(error)),
    }
}

/// The document that `text` spells, or the message of the error that parsing
/// it ends in.
pub open spec fn decoded(text: Seq<char>) -> Result<Value, Seq<char>> {
    match json_parsed(text) {
        Ok(value) => Ok(value),
        Err(error) => Err(error_text(error)),
    }
}

/// Serialises a document to compact JSON text.
///
/// A failure of the serialiser comes back as a value, with the
/// serialiser's own message.
pub fn encode(value: &Value) -> (outcome: Result<String, CodecError>)
    ensures
        match outcome {
            Ok(text) => encoded(*value) == Ok::<Seq<char>, Seq<char>>(text@),
            Err(error) => encoded(*value) == Err::<Seq<char>, Seq<char>>(error@),
        },
{
    match to_text(value) {
        Ok(text) => Ok(text),
        Err(error) => Err(CodecError { message: describe(&error) }),
    }
}

/// Parses JSON text into a document.
///
/// A text that is not one JSON document is rejected with the parser's own
/// message.
pub fn decode(text: &str) -> (outcome: Result<Value, CodecError>)
    ensures
        match outcome {
            Ok(value) => decoded(text@) == Ok::<Value, Seq<char>>(value),
            Err(error) => decoded(text@) == Err::<Value, Seq<char>>(error@),
        },
{
    match from_text(text) {
        Ok(value) => Ok(value),
        Err(error) => Err(CodecError { message: describe(&error) }),
    }
}

} // verus!
