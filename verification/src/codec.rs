//! Decoding that outside code does for this library: JSON text by
//! `serde_json`, and bytes of doubtful encoding by the standard library.
//! Nothing in this file is proved of that code; each contract says what is
//! taken on trust.
use crate::payload::{Json, Payload};
use vstd::prelude::*;
use vstd::utf8::{decode_utf8, valid_utf8};

verus! {

/// A value of `serde_json`, of which nothing is known but what the names
/// below say.
#[verifier::external_type_specification]
#[verifier::external_body]
pub struct ExValue(serde_json::Value);

/// The content that `serde_json` reads from a JSON text, or `None` where it
/// rejects the text.
pub uninterp spec fn parsed_json(text: Seq<char>) -> Option<Json>;

/// The content that a value of `serde_json` holds.
pub uninterp spec fn value_content(value: serde_json::Value) -> Json;

/// The text that lossy decoding makes of bytes: valid UTF-8 decodes to
/// itself, and what is not valid is replaced.
pub uninterp spec fn lossy_text(bytes: Seq<u8>) -> Seq<char>;

/// Calls `serde_json::from_str` for a `serde_json::Value`. Claims that
/// parsing depends on the text alone: a text that is accepted always gives a
/// value of the same content, and a text that is rejected is always
/// rejected.
#[verifier::external_body]
fn parse_value(text: &str) -> (parsed: Option<serde_json::Value>)
    ensures
        match parsed {
            Some(value) => parsed_json(text@) == Some(value_content(value)),
            None => parsed_json(text@) is None,
        },
{
    serde_json::from_str::<serde_json::Value>(text).ok()
}

/// Rebuilds a value of `serde_json` as a payload, variant by variant; a
/// number goes over as the decimal text that `serde_json` prints for it.
/// Claims that the payload has the content of the value.
#[verifier::external_body]
fn payload_of(value: serde_json::Value) -> (payload: Payload)
    ensures
        payload@ == value_content(value),
{
    match value {
        serde_json::Value::Null => Payload::Null,
        serde_json::Value::Bool(flag) => Payload::Bool(flag),
        serde_json::Value::Number(number) => Payload::Number(number.to_string()),
        serde_json::Value::String(text) => Payload::Text(text),
        serde_json::Value::Array(items) => Payload::Array(
            items.into_iter().map(payload_of).collect(),
        ),
        serde_json::Value::Object(fields) => Payload::Object(
            fields.into_iter().map(|(name, value)| (name, payload_of(value))).collect(),
        ),
    }
}

/// Calls `String::from_utf8_lossy`. Claims that the result depends on the
/// bytes alone, and that bytes which are valid UTF-8 decode to the text they
/// encode.
#[verifier::external_body]
pub(crate) fn decode_lossy(bytes: &[u8]) -> (text: String)
    ensures
        text@ == lossy_text(bytes@),
        valid_utf8(bytes@) ==> text@ == decode_utf8(bytes@),
{
    String::from_utf8_lossy(bytes).into_owned()
}

/// Parses a JSON text into a payload. Returns `None` exactly where the text
/// is rejected.
pub fn parse_json(text: &str) -> (parsed: Option<Payload>)
    ensures
        match parsed {
            Some(payload) => parsed_json(text@) == Some(payload@),
            None => parsed_json(text@) is None,
        },
{
    match parse_value(text) {
        Some(value) => Some(payload_of(value)),
        None => None,
    }
}

} // verus!
