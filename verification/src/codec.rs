//! How an optional text field is written to, and read back from, its column.
//!
//! The `code_snippets` and `tags` columns hold JSON: `null` for an absent
//! field, a JSON string for a present one. The store does not look inside the
//! text it encodes.

use vstd::prelude::*;
use crate::error::CoreError;

verus! {

#[verifier::external_type_specification]
#[verifier::external_body]
pub struct ExJsonError(serde_json::Error);

/// The JSON text that `serde_json::to_string` produces for an optional text.
pub uninterp spec fn json_text(field: Option<Seq<char>>) -> Seq<char>;

/// What `serde_json::from_str` reads from a text as an optional text, or
/// `None` where it rejects the text.
pub uninterp spec fn json_field(text: Seq<char>) -> Option<Option<Seq<char>>>;

/// The field that a stored text stands for: what the text parses to, and the
/// absent field where it does not parse.
pub open spec fn decoded(text: Seq<char>) -> Option<Seq<char>> {
    match json_field(text) {
        Some(field) => field,
        None => None,
    }
}

/// Calls `serde_json::to_string` on an optional text. It cannot fail there:
/// the serializer writes into a vector of bytes, and neither an option nor a
/// string refuses to be written. The text it returns depends on the field
/// alone and is named [`json_text`].
#[verifier::external_body]
fn to_json(field: &Option<String>) -> (r: Result<String, serde_json::Error>)
    ensures
        r is Ok,
        r matches Ok(text) ==> text@ == json_text(field.deep_view()),
{
    serde_json::to_string(field)
}

/// Calls `serde_json::from_str` to read an optional text. Its outcome depends
/// on the text alone and is named [`json_field`]: the field on success, `None`
/// on rejection.
#[verifier::external_body]
fn from_json(text: &str) -> (r: Result<Option<String>, serde_json::Error>)
    ensures
        match r {
            Ok(field) => json_field(text@) == Some(field.deep_view()),
            Err(_) => json_field(text@) is None,
        },
{
    serde_json::from_str(text)
}

/// Renders a `serde_json::Error` through its `Display` impl. Nothing is
/// claimed about the text.
#[verifier::external_body]
fn json_error_text(e: &serde_json::Error) -> String {
    e.to_string()
}

/// Encodes a field for its column. Every field has an encoding, so this
/// succeeds on every input.
pub fn encode_field(field: &Option<String>) -> (r: Result<String, CoreError>)
    ensures
        r matches Ok(text) && text@ == json_text(field.deep_view()),
{
    match to_json(field) {
        Ok(text) => Ok(text),
        Err(e) => Err(CoreError::SerializationError(json_error_text(&e))),
    }
}

/// Decodes a column's text. A text that does not parse reads as the absent
/// field, so that one damaged row does not fail a whole listing.
pub fn decode_field(text: &str) -> (field: Option<String>)
    ensures
        field.deep_view() == decoded(text@),
{
    match from_json(text) {
        Ok(field) => field,
        Err(_) => None,
    }
}

/// Whether two optional texts are the same.
fn same_field(a: &Option<String>, b: &Option<String>) -> (same: bool)
    ensures
        same == (a.deep_view() == b.deep_view()),
{
    match a {
        None => b.is_none(),
        Some(x) => match b {
            None => false,
            Some(y) => *x == *y,
        },
    }
}

/// Whether a field survives its column: whether the text that encodes it
/// decodes to the field again.
pub fn reads_back(field: &Option<String>) -> (kept: bool)
    ensures
        kept == (json_field(json_text(field.deep_view())) == Some(field.deep_view())),
{
    match to_json(field) {
        Ok(text) => match from_json(text.as_str()) {
            Ok(read) => same_field(&read, field),
            Err(_) => false,
        },
        Err(_) => false,
    }
}

} // verus!
