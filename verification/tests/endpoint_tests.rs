use webhook_deploy::endpoint::{handle_ping, handle_webhook, WebhookDecision};
use webhook_deploy::event::parse_event;
use webhook_deploy::filter::branch_is_master;
use webhook_deploy::signature::expected_signature;

const SECRET: &[u8] = b"a shared secret";

fn signed(body: &[u8]) -> String {
    String::from_utf8(expected_signature(SECRET, body)).unwrap()
}

#[test]
fn test_ping_always_pong() {
    let (status, body) = handle_ping();
    assert_eq!(status, 200);
    assert_eq!(body, "Pong");
}

#[test]
fn test_master_ref_proceeds() {
    assert!(branch_is_master("refs/heads/master"));
}

#[test]
fn test_feature_ref_ignored() {
    assert!(!branch_is_master("refs/heads/feature-x"));
    assert!(!branch_is_master("refs/heads/not-master"));
    assert!(!branch_is_master("master"));
}

#[test]
fn test_parse_event_well_formed() {
    let body = br#"{"ref":"refs/heads/master","repository":{"clone_url":"https://example.com/repo.git"}}"#;
    let event = parse_event(body).unwrap();
    assert_eq!(event.branch_ref, "refs/heads/master");
    assert_eq!(event.clone_url, "https://example.com/repo.git");
}

#[test]
fn test_parse_event_unknown_fields_ignored() {
    let body = br#"{"ref":"refs/heads/master","extra":1,"repository":{"clone_url":"u","name":"r"}}"#;
    let event = parse_event(body).unwrap();
    assert_eq!(event.branch_ref, "refs/heads/master");
}

#[test]
fn test_parse_event_malformed() {
    assert!(parse_event(b"not json at all").is_none());
    assert!(parse_event(br#"{"ref":"refs/heads/master"}"#).is_none());
    assert!(parse_event(br#"{"ref":7,"repository":{"clone_url":"u"}}"#).is_none());
    assert!(parse_event(br#"{"repository":{"clone_url":"u"}}"#).is_none());
}

#[test]
fn test_webhook_master_accepted() {
    let body = br#"{"ref":"refs/heads/master","repository":{"clone_url":"u"}}"#;
    let d = handle_webhook(SECRET, &signed(body), body);
    assert_eq!(d, WebhookDecision::Accepted);
    assert_eq!(d.status_code(), 200);
    assert_eq!(d.message(), "Deployment started");
    assert!(d.triggers_deploy());
}

#[test]
fn test_webhook_other_branch_ignored() {
    let body = br#"{"ref":"refs/heads/feature-x","repository":{"clone_url":"u"}}"#;
    let d = handle_webhook(SECRET, &signed(body), body);
    assert_eq!(d, WebhookDecision::Ignored);
    assert_eq!(d.status_code(), 200);
    assert_eq!(d.message(), "Ignoring non-master branch");
    assert!(!d.triggers_deploy());
}

#[test]
fn test_webhook_bad_signature_unauthorized() {
    let body = br#"{"ref":"refs/heads/master","repository":{"clone_url":"u"}}"#;
    let d = handle_webhook(SECRET, "sha256=deadbeef", body);
    assert_eq!(d, WebhookDecision::Unauthorized);
    assert_eq!(d.status_code(), 401);
    assert_eq!(d.message(), "Invalid signature");
    assert!(!d.triggers_deploy());
}

#[test]
fn test_webhook_malformed_body_bad_request() {
    // A valid signature over a malformed body: authentication passes,
    // decoding fails, and no deployment is triggered.
    let body = b"{not valid json";
    let d = handle_webhook(SECRET, &signed(body), body);
    assert_eq!(d, WebhookDecision::BadPayload);
    assert_eq!(d.status_code(), 400);
    assert_eq!(d.message(), "Invalid JSON");
    assert!(!d.triggers_deploy());
}
