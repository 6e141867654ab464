//! The text-frame message envelope.
//!
//! A text frame may carry a structured object with three recognized string
//! fields: `type` (where the value `register` triggers identifier binding),
//! `connectionId` (the identifier to bind), and `target_id` (the routing
//! target). Unrecognized fields are ignored; a payload that does not parse,
//! or parses to something without a recognized field, routes nowhere.

use vstd::prelude::*;

verus! {

/// The string value of field `key` of the text `s`, when `s` parses as a
/// structured object and holds a string under that key; nothing otherwise.
/// The value is fixed by `s` and `key` alone.
pub uninterp spec fn json_str_field(s: Seq<char>, key: Seq<char>) -> Option<Seq<char>>;

/// Relies on `serde_json::from_str::<Value>`, `Value::get` and
/// `Value::as_str`: parses `text` and extracts the string value of `key`.
/// All three calls are deterministic in their arguments, so the result is a
/// function of `text` and `key` alone, named by [`json_str_field`].
#[verifier::external_body]
fn json_string_field(text: &str, key: &str) -> (r: Option<String>)
    ensures
        r is Some <==> json_str_field(text@, key@) is Some,
        r matches Some(v) ==> json_str_field(text@, key@) == Some(v@),
{
    match serde_json::from_str::<serde_json::Value>(text) {
        Ok(data) => match data.get(key) {
            Some(field) => match field.as_str() {
                Some(s) => Some(s.to_string()),
                None => None,
            },
            None => None,
        },
        Err(_) => None,
    }
}

/// The field whose value `register` makes a text frame a registration.
pub open spec fn spec_type_key() -> Seq<char> {
    "type"@
}

/// The field naming the identifier a registration binds.
pub open spec fn spec_conn_key() -> Seq<char> {
    "connectionId"@
}

/// The field naming the routing target of a forwarded text frame.
pub open spec fn spec_target_key() -> Seq<char> {
    "target_id"@
}

/// Whether the text `s` is a registration directive: its `type` field is the
/// string `register`.
pub open spec fn is_register_text(s: Seq<char>) -> bool {
    json_str_field(s, spec_type_key()) == Some("register"@)
}

/// The identifier a registration directive binds, if it carries one.
pub open spec fn register_id_of(s: Seq<char>) -> Option<Seq<char>> {
    json_str_field(s, spec_conn_key())
}

/// The routing target a text frame designates, if it carries one.
pub open spec fn target_of(s: Seq<char>) -> Option<Seq<char>> {
    json_str_field(s, spec_target_key())
}

/// The recognized fields of one text frame, extracted once on arrival.
pub struct Envelope {
    /// The value of the `type` field, when present as a string.
    pub msg_type: Option<String>,
    /// The value of the `connectionId` field, when present as a string.
    pub connection_id: Option<String>,
    /// The value of the `target_id` field, when present as a string.
    pub target_id: Option<String>,
}

/// Extracts the recognized envelope fields from a text payload. A payload
/// that does not parse yields an envelope with every field absent, which the
/// router treats as a frame that routes nowhere.
pub fn parse_envelope(text: &str) -> (e: Envelope)
    ensures
        e.msg_type.deep_view() == json_str_field(text@, spec_type_key()),
        e.connection_id.deep_view() == register_id_of(text@),
        e.target_id.deep_view() == target_of(text@),
{
    Envelope {
        msg_type: json_string_field(text, "type"),
        connection_id: json_string_field(text, "connectionId"),
        target_id: json_string_field(text, "target_id"),
    }
}

} // verus!
