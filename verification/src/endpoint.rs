//! The HTTP endpoint layer's decisions: what each request deserves.
//!
//! The webhook route authenticates the raw body against the signature
//! header, decodes the event, filters on the branch, and maps the outcome
//! to a status code, a fixed message, and whether a deployment is to be
//! dispatched.  The liveness route always answers `Pong`.

use vstd::prelude::*;
use vstd::string::StringExecFns;
use vstd::string::StringSliceAdditionalSpecFns;
use vstd::utf8::encode_utf8;
use crate::event::{event_decode_of, parse_event};
use crate::filter::{branch_is_master, is_master_ref};
use crate::signature::{signature_matches, verify_signature};

verus! {

/// What the webhook route decides for one request.
#[derive(Clone, Copy, PartialEq, Eq, Structural, Debug)]
pub enum WebhookDecision {
    /// The signature did not verify.
    Unauthorized,
    /// The signature verified but the body failed to decode.
    BadPayload,
    /// A well-formed event for some other branch: acknowledged, no action.
    Ignored,
    /// A well-formed event for the main branch: a deployment is started.
    Accepted,
}

/// The decision owed to a request, from the configured secret, the
/// signature header value, and the raw body: authentication first, then
/// decoding, then the branch filter.
pub open spec fn webhook_decision_of(secret: Seq<u8>, sig: Seq<u8>, body: Seq<u8>) -> WebhookDecision {
    if !signature_matches(secret, body, sig) {
        WebhookDecision::Unauthorized
    } else {
        match event_decode_of(body) {
            Option::None => WebhookDecision::BadPayload,
            Option::Some(fields) => if is_master_ref(encode_utf8(fields.0)) {
                WebhookDecision::Accepted
            } else {
                WebhookDecision::Ignored
            },
        }
    }
}

/// Handle one webhook request: verify the signature over the exact body
/// bytes, decode the event, and filter on its branch reference.
pub fn handle_webhook(secret: &[u8], signature: &str, body: &[u8]) -> (d: WebhookDecision)
    ensures
        d == webhook_decision_of(secret@, signature.spec_bytes(), body@),
{
    if !verify_signature(secret, body, signature) {
        return WebhookDecision::Unauthorized;
    }
    match parse_event(body) {
        None => WebhookDecision::BadPayload,
        Some(event) => {
            if branch_is_master(event.branch_ref.as_str()) {
                WebhookDecision::Accepted
            } else {
                WebhookDecision::Ignored
            }
        },
    }
}

/// The HTTP status a decision answers with.
pub open spec fn status_of(d: WebhookDecision) -> u16 {
    match d {
        WebhookDecision::Unauthorized => 401,
        WebhookDecision::BadPayload => 400,
        WebhookDecision::Ignored => 200,
        WebhookDecision::Accepted => 200,
    }
}

/// The fixed message a decision answers with.
pub open spec fn message_of(d: WebhookDecision) -> Seq<char> {
    match d {
        WebhookDecision::Unauthorized => "Invalid signature"@,
        WebhookDecision::BadPayload => "Invalid JSON"@,
        WebhookDecision::Ignored => "Ignoring non-master branch"@,
        WebhookDecision::Accepted => "Deployment started"@,
    }
}

impl WebhookDecision {
    /// The HTTP status code for this decision.
    pub fn status_code(&self) -> (c: u16)
        ensures
            c == status_of(*self),
    {
        match self {
            WebhookDecision::Unauthorized => 401,
            WebhookDecision::BadPayload => 400,
            WebhookDecision::Ignored => 200,
            WebhookDecision::Accepted => 200,
        }
    }

    /// The fixed response body for this decision.
    pub fn message(&self) -> (m: String)
        ensures
            m@ == message_of(*self),
    {
        match self {
            WebhookDecision::Unauthorized => String::from_str("Invalid signature"),
            WebhookDecision::BadPayload => String::from_str("Invalid JSON"),
            WebhookDecision::Ignored => String::from_str("Ignoring non-master branch"),
            WebhookDecision::Accepted => String::from_str("Deployment started"),
        }
    }

    /// Whether this decision dispatches a deployment: only an accepted
    /// event does.
    pub fn triggers_deploy(&self) -> (b: bool)
        ensures
            b == (*self is Accepted),
    {
        match self {
            WebhookDecision::Accepted => true,
            _ => false,
        }
    }
}

/// A body that fails to decode never triggers a deployment, and — when its
/// signature verifies — is answered with the bad-request status.
pub proof fn lemma_malformed_body_rejected(secret: Seq<u8>, sig: Seq<u8>, body: Seq<u8>)
    requires
        event_decode_of(body) is None,
    ensures
        webhook_decision_of(secret, sig, body) != WebhookDecision::Accepted,
        signature_matches(secret, body, sig) ==> webhook_decision_of(secret, sig, body)
            == WebhookDecision::BadPayload && status_of(webhook_decision_of(secret, sig, body))
            == 400,
{
}

/// An authenticated, well-formed event whose branch reference ends in
/// `/master` is always accepted with the success status — and only then
/// is a deployment started.
pub proof fn lemma_master_event_accepted(secret: Seq<u8>, sig: Seq<u8>, body: Seq<u8>)
    requires
        signature_matches(secret, body, sig),
        event_decode_of(body) matches Some(fields) && is_master_ref(encode_utf8(fields.0)),
    ensures
        webhook_decision_of(secret, sig, body) == WebhookDecision::Accepted,
        status_of(webhook_decision_of(secret, sig, body)) == 200,
{
}

/// Handle a liveness probe: always status 200 with body `Pong`, whatever
/// else the request carried.
pub fn handle_ping() -> (r: (u16, String))
    ensures
        r.0 == 200,
        r.1@ == "Pong"@,
{
    (200, String::from_str("Pong"))
}

} // verus!
