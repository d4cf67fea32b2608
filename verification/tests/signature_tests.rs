use webhook_deploy::signature::{expected_signature, verify_signature};

// HMAC-SHA-256 test vector (key "Jefe", RFC 4231 test case 2).
const JEFE_TAG_HEX: &str = "5bdcc146bf60754e6a042426089575c75a003f089d2739839dec58b964ec3843";

#[test]
fn test_known_hmac_vector() {
    let sig = expected_signature(b"Jefe", b"what do ya want for nothing?");
    let sig = String::from_utf8(sig).unwrap();
    assert_eq!(sig, format!("sha256={}", JEFE_TAG_HEX));
}

#[test]
fn test_expected_signature_verifies() {
    let secret = b"a shared secret";
    let body = br#"{"ref":"refs/heads/master","repository":{"clone_url":"u"}}"#;
    let sig = String::from_utf8(expected_signature(secret, body)).unwrap();
    assert!(verify_signature(secret, body, &sig));
}

#[test]
fn test_flipping_any_byte_fails() {
    let secret = b"a shared secret";
    let body = b"some payload bytes";
    let sig = String::from_utf8(expected_signature(secret, body)).unwrap();
    assert!(verify_signature(secret, body, &sig));
    for i in 0..body.len() {
        let mut flipped = *body;
        flipped[i] ^= 1;
        assert!(!verify_signature(secret, &flipped, &sig));
    }
}

#[test]
fn test_wrong_secret_fails() {
    let body = b"some payload bytes";
    let sig = String::from_utf8(expected_signature(b"right secret", body)).unwrap();
    assert!(!verify_signature(b"wrong secret", body, &sig));
}

#[test]
fn test_unprefixed_value_compared_literally() {
    let secret = b"a shared secret";
    let body = b"some payload bytes";
    // The bare hex tag carries no "sha256=" prefix: it is compared as it
    // stands and equals the expected encoding.
    assert!(verify_signature(secret, body, JEFE_TAG_HEX) == false);
    let full = String::from_utf8(expected_signature(secret, body)).unwrap();
    let bare = full.strip_prefix("sha256=").unwrap();
    assert!(verify_signature(secret, body, bare));
    // A doubled prefix is stripped repeatedly, as trim-from-the-start does.
    let doubled = format!("sha256={}", full);
    assert!(verify_signature(secret, body, &doubled));
}

#[test]
fn test_prefixed_garbage_fails() {
    let secret = b"a shared secret";
    let body = b"some payload bytes";
    assert!(!verify_signature(secret, body, "sha256=deadbeef"));
    assert!(!verify_signature(secret, body, ""));
}

#[test]
fn test_uppercase_hex_fails() {
    // The comparison is case-sensitive and the expected encoding lowercase.
    let secret = b"a shared secret";
    let body = b"some payload bytes";
    let sig = String::from_utf8(expected_signature(secret, body)).unwrap();
    let upper = sig.to_uppercase();
    assert_ne!(sig, upper);
    assert!(!verify_signature(secret, body, &upper));
}
