//! Reading string fields of JSON documents that yt-dlp prints.

use vstd::prelude::*;

verus! {

#[verifier::external_type_specification]
#[verifier::external_body]
pub struct ExJsonError(serde_json::Error);

/// What a JSON document says of a key: `None` when the text is not JSON,
/// else the string stored under the key of the top-level object, if there is one.
pub uninterp spec fn json_str_field(text: Seq<char>, key: Seq<char>) -> Option<Option<Seq<char>>>;

/// Parses `text` with `serde_json::from_str` into a `serde_json::Value` and
/// reads `key` with `Value::get` and `Value::as_str`. The contract claims only
/// that the outcome is the one that `json_str_field` names for these
/// arguments: an error exactly when the parse fails, else the string field.
#[verifier::external_body]
pub(crate) fn parse_str_field(text: &str, key: &str) -> (r: Result<Option<String>, serde_json::Error>)
    ensures
        match r {
            Ok(v) => json_str_field(text@, key@) == Some(
                match v {
                    Some(s) => Some(s@),
                    None => None,
                },
            ),
            Err(_) => json_str_field(text@, key@) is None,
        },
{
    let value: serde_json::Value = serde_json::from_str(text)?;
    Ok(value.get(key).and_then(|v| v.as_str()).map(|s| s.to_string()))
}

/// Errors in reading yt-dlp's JSON.
#[derive(Debug, Clone, Copy, PartialEq, Eq, Structural)]
pub enum JsonError {
    /// The text is not a JSON document.
    Malformed,
}

/// The string stored under `key` in the JSON object `text`; an error when
/// `text` is not JSON.
pub fn str_field(text: &str, key: &str) -> (r: Result<Option<String>, JsonError>)
    ensures
        match r {
            Ok(v) => json_str_field(text@, key@) == Some(
                match v {
                    Some(s) => Some(s@),
                    None => None,
                },
            ),
            Err(e) => json_str_field(text@, key@) is None && e == JsonError::Malformed,
        },
{
    match parse_str_field(text, key) {
        Ok(v) => Ok(v),
        Err(_) => Err(JsonError::Malformed),
    }
}

} // verus!
