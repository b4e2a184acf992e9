//! The message normalizer: decodes a raw inbound payload into an
//! `InboundMessage`.
//!
//! The payload is JSON; parsing it is serde_json's job and stands behind
//! trusted items. Which payload keys feed which message fields is this
//! core's own rule and is verified: `normalize` proves that each field of
//! the record it returns is exactly the named string field of the payload.

use vstd::prelude::*;
use crate::errors::DecodeError;
use crate::message::{InboundFields, InboundMessage};

verus! {

/// Whether `s` is a well-formed structured event record: text that parses
/// as a JSON object. Names the success of `serde_json::from_str` (plus the
/// object check), which depends on the input text alone.
pub uninterp spec fn json_ok(s: Seq<char>) -> bool;

/// The string field stored under `key` in the JSON object that `s` parses
/// to: `None` when the key is absent or its value is not a string. Names
/// the result of `serde_json::Value::get` followed by
/// `serde_json::Value::as_str`, which depends on the text and the key
/// alone.
pub uninterp spec fn json_str_field(s: Seq<char>, key: Seq<char>) -> Option<Seq<char>>;

#[verifier::external_type_specification]
#[verifier::external_body]
pub struct ExValue(serde_json::Value);

/// A parsed payload together with the raw text it was parsed from. Built
/// only by `parse_payload`, so the parsed part always stems from `raw`.
struct JsonPayload {
    raw: String,
    value: serde_json::Value,
}

impl JsonPayload {
    spec fn spec_raw(&self) -> Seq<char> {
        self.raw@
    }
}

/// Relies on `serde_json::from_str::<serde_json::Value>`: parsing succeeds
/// exactly on well-formed JSON and depends on the input text alone; the
/// `serde_json::Value::is_object` arm keeps only payloads that are JSON
/// objects.
#[verifier::external_body]
fn parse_payload(s: &str) -> (r: Result<JsonPayload, DecodeError>)
    ensures
        r is Ok <==> json_ok(s@),
        r matches Ok(p) ==> p.spec_raw() == s@,
{
    match serde_json::from_str::<serde_json::Value>(s) {
        Ok(value) if value.is_object() => Ok(JsonPayload { raw: s.to_string(), value }),
        _ => Err(DecodeError),
    }
}

/// Relies on `serde_json::Value::get` (the value under the key, if any) and
/// `serde_json::Value::as_str` (its text exactly when it is a JSON string):
/// together they look up one string field of the parsed object.
#[verifier::external_body]
fn get_str_field(p: &JsonPayload, key: &str) -> (r: Option<String>)
    ensures
        r.deep_view() == json_str_field(p.spec_raw(), key@),
{
    match p.value.get(key) {
        Some(v) => match v.as_str() {
            Some(text) => Some(text.to_string()),
            None => None,
        },
        None => None,
    }
}

/// The fields that decoding `s` yields: each recognized payload key read as
/// a string field, every other key ignored.
pub open spec fn normalized_fields(s: Seq<char>) -> InboundFields {
    InboundFields {
        event_type: json_str_field(s, "type"@),
        subtype: json_str_field(s, "subtype"@),
        sender_id: json_str_field(s, "user"@),
        text: json_str_field(s, "text"@),
        channel_id: json_str_field(s, "channel"@),
    }
}

/// The message normalizer: decodes one raw event payload into an
/// `InboundMessage`, reporting a `DecodeError` exactly when the payload is
/// not a well-formed structured record. A pure decode with no side
/// effects; unrecognized keys are ignored.
pub fn normalize(payload: &str) -> (r: Result<InboundMessage, DecodeError>)
    ensures
        r is Ok <==> json_ok(payload@),
        r matches Ok(m) ==> m@ == normalized_fields(payload@),
{
    let p = match parse_payload(payload) {
        Ok(p) => p,
        Err(e) => return Err(e),
    };
    Ok(InboundMessage::from_fields(
        get_str_field(&p, "type"),
        get_str_field(&p, "subtype"),
        get_str_field(&p, "user"),
        get_str_field(&p, "text"),
        get_str_field(&p, "channel"),
    ))
}

} // verus!
