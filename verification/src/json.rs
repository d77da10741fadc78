//! The JSON reader that the oracle's replies go through.

use vstd::prelude::*;

verus! {

/// `serde_json::Value`: a JSON document, or a part of one. Nothing is known
/// of what is inside but what the functions below say.
#[verifier::external_type_specification]
#[verifier::external_body]
pub struct ExJsonValue(serde_json::Value);

/// `serde_json::Error`: why a text could not be read. Nothing is known of it.
#[verifier::external_type_specification]
#[verifier::external_body]
pub struct ExJsonError(serde_json::Error);

/// The string that `serde_json::from_str::<String>` reads from `text`, if it reads one.
pub uninterp spec fn json_string(text: Seq<char>) -> Option<Seq<char>>;

/// The document that `serde_json::from_str::<serde_json::Value>` reads from `text`, if it reads one.
pub uninterp spec fn json_document(text: Seq<char>) -> Option<serde_json::Value>;

/// The member that `serde_json::Value::get` finds in `doc` under `key`, if there is one.
pub uninterp spec fn json_member(doc: serde_json::Value, key: Seq<char>) -> Option<serde_json::Value>;

/// The string that `serde_json::Value::as_str` finds in `value`, if it is one.
pub uninterp spec fn json_text(value: serde_json::Value) -> Option<Seq<char>>;

/// Calls `serde_json::from_str::<String>`: the result is `Ok` with the string that
/// `json_string` names, or an error where it names none.
#[verifier::external_body]
pub(crate) fn read_string(text: &str) -> (r: Result<String, serde_json::Error>)
    ensures
        match r {
            Ok(s) => json_string(text@) == Some(s@),
            Err(_) => json_string(text@).is_none(),
        },
{
    serde_json::from_str::<String>(text)
}

/// Calls `serde_json::from_str::<serde_json::Value>`: the result is `Ok` with the
/// document that `json_document` names, or an error where it names none.
#[verifier::external_body]
pub(crate) fn read_document(text: &str) -> (r: Result<serde_json::Value, serde_json::Error>)
    ensures
        match r {
            Ok(doc) => json_document(text@) == Some(doc),
            Err(_) => json_document(text@).is_none(),
        },
{
    serde_json::from_str::<serde_json::Value>(text)
}

/// Calls `serde_json::Value::get` with a string key: the result is the member
/// that `json_member` names.
#[verifier::external_body]
pub(crate) fn member<'a>(doc: &'a serde_json::Value, key: &str) -> (r: Option<&'a serde_json::Value>)
    ensures
        match r {
            Some(m) => json_member(*doc, key@) == Some(*m),
            None => json_member(*doc, key@).is_none(),
        },
{
    doc.get(key)
}

/// Calls `serde_json::Value::as_str`: the result is the string that `json_text` names.
#[verifier::external_body]
pub(crate) fn text<'a>(value: &'a serde_json::Value) -> (r: Option<&'a str>)
    ensures
        match r {
            Some(s) => json_text(*value) == Some(s@),
            None => json_text(*value).is_none(),
        },
{
    value.as_str()
}

} // verus!
