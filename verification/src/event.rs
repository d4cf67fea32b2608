//! Decoding the webhook body into a structured event.
//!
//! The payload is a JSON document of the shape
//! `{ "ref": string, "repository": { "clone_url": string } }`; unknown
//! fields are ignored.  A body that is not JSON, or lacks one of the two
//! fields, or carries a non-string there, fails to decode.

use vstd::prelude::*;

verus! {

/// What decoding the body yields: the `ref` and `repository.clone_url`
/// strings when the body is a well-formed event, `None` otherwise.
/// Decoding is a function of the body bytes alone.
pub uninterp spec fn event_decode_of(body: Seq<u8>) -> Option<(Seq<char>, Seq<char>)>;

/// A webhook notification: the branch reference it concerns and the
/// repository's clone URL.
pub struct WebhookEvent {
    pub branch_ref: String,
    pub clone_url: String,
}

/// Relies on serde_json (`from_slice`, `Value::get`, `Value::as_str`):
/// parsing and field lookup depend on the body bytes alone.  Yields the
/// `"ref"` field and the `"repository"."clone_url"` field, both strings;
/// `None` when the body is not JSON, a field is absent, or not a string.
#[verifier::external_body]
fn decode_event_fields(body: &[u8]) -> (r: Option<(String, String)>)
    ensures
        match r {
            Some(p) => event_decode_of(body@) == Some((p.0@, p.1@)),
            None => event_decode_of(body@) is None,
        },
{
    let value: serde_json::Value = serde_json::from_slice(body).ok()?;
    let branch = value.get("ref")?.as_str()?.to_owned();
    let url = value.get("repository")?.get("clone_url")?.as_str()?.to_owned();
    Some((branch, url))
}

/// Decode the raw body into an event, or `None` when it is malformed.
pub fn parse_event(body: &[u8]) -> (r: Option<WebhookEvent>)
    ensures
        match r {
            Some(e) => event_decode_of(body@) == Some((e.branch_ref@, e.clone_url@)),
            None => event_decode_of(body@) is None,
        },
{
    match decode_event_fields(body) {
        Some(p) => Some(WebhookEvent { branch_ref: p.0, clone_url: p.1 }),
        None => None,
    }
}

} // verus!
