//! Webhook authentication: an HMAC-SHA-256 tag over the raw body, sent
//! hex-encoded in a header value of the form `sha256=<hex>`.
//!
//! The check strips every leading `sha256=` prefix from the supplied value
//! and compares the rest, case-sensitively, with the lowercase hex encoding
//! of the tag computed from the configured secret and the exact body bytes.

use vstd::prelude::*;
use vstd::slice::slice_subrange;
use vstd::string::StringSliceAdditionalSpecFns;
use hmac::Mac;
use crate::byteops::{bytes_eq, starts_with};

verus! {

/// The tag that HMAC-SHA-256 yields for the given key and message.
/// The value is fixed by the hash; it depends on the arguments alone.
pub uninterp spec fn hmac_sha256_of(key: Seq<u8>, msg: Seq<u8>) -> Seq<u8>;

/// Relies on hmac's `Hmac::<Sha256>`: `new_from_slice` accepts a key of any
/// length (it never returns an error), and the finalized tag is a function
/// of the key and the accumulated message bytes alone.
#[verifier::external_body]
fn hmac_sha256(key: &[u8], msg: &[u8]) -> (r: Vec<u8>)
    ensures
        r@ == hmac_sha256_of(key@, msg@),
{
    let mut mac = <hmac::Hmac<sha2::Sha256> as Mac>::new_from_slice(key).unwrap();
    mac.update(msg);
    mac.finalize().into_bytes().to_vec()
}

/// The ASCII code of the lowercase hex digit for `n` (`n < 16`).
pub open spec fn hex_digit(n: u8) -> u8
    recommends
        n < 16,
{
    if n < 10 {
        (48 + n) as u8
    } else {
        (87 + n) as u8
    }
}

/// Lowercase hex encoding: two digits per byte, high nibble first.
pub open spec fn hex_bytes(s: Seq<u8>) -> Seq<u8> {
    Seq::new(
        2 * s.len(),
        |i: int|
            if i % 2 == 0 {
                hex_digit((s[i / 2] / 16) as u8)
            } else {
                hex_digit((s[i / 2] % 16) as u8)
            },
    )
}

/// Relies on hex::encode: lowercase output, two digits per byte, high
/// nibble first.
#[verifier::external_body]
fn hex_encode(data: &[u8]) -> (r: Vec<u8>)
    ensures
        r@ == hex_bytes(data@),
{
    hex::encode(data).into_bytes()
}

/// `sha256=` in ASCII: the prefix a signature header value carries.
pub open spec fn signature_prefix() -> Seq<u8> {
    seq![115u8, 104u8, 97u8, 50u8, 53u8, 54u8, 61u8]
}

fn signature_prefix_vec() -> (v: Vec<u8>)
    ensures
        v@ == signature_prefix(),
{
    let v: Vec<u8> = vec![115u8, 104u8, 97u8, 50u8, 53u8, 54u8, 61u8];
    proof {
        assert(v@ =~= signature_prefix());
    }
    v
}

/// The signature value with every leading `sha256=` prefix removed;
/// a value that carries no such prefix is left as it stands.
pub open spec fn strip_signature_prefix(s: Seq<u8>) -> Seq<u8>
    decreases s.len(),
{
    if signature_prefix().is_prefix_of(s) {
        strip_signature_prefix(s.skip(7))
    } else {
        s
    }
}

fn strip_sig_prefix<'a>(sig: &'a [u8]) -> (r: &'a [u8])
    ensures
        r@ == strip_signature_prefix(sig@),
{
    let pre = signature_prefix_vec();
    let mut s: &[u8] = sig;
    let mut go = starts_with(s, pre.as_slice());
    while go
        invariant
            pre@ == signature_prefix(),
            go == signature_prefix().is_prefix_of(s@),
            strip_signature_prefix(sig@) == strip_signature_prefix(s@),
        decreases s@.len(),
    {
        proof {
            assert(s@.subrange(7, s@.len() as int) =~= s@.skip(7));
        }
        s = slice_subrange(s, 7, s.len());
        go = starts_with(s, pre.as_slice());
    }
    s
}

/// Whether the supplied signature value authenticates the body under the
/// secret: after prefix stripping it equals the lowercase hex encoding of
/// the body's HMAC-SHA-256 tag.
pub open spec fn signature_matches(secret: Seq<u8>, body: Seq<u8>, sig: Seq<u8>) -> bool {
    strip_signature_prefix(sig) == hex_bytes(hmac_sha256_of(secret, body))
}

/// Authenticate a request: compute the HMAC-SHA-256 tag of the raw body
/// under the secret and compare it with the supplied signature value.
pub fn verify_signature(secret: &[u8], body: &[u8], signature: &str) -> (r: bool)
    ensures
        r == signature_matches(secret@, body@, signature.spec_bytes()),
{
    let stripped = strip_sig_prefix(signature.as_bytes());
    let tag = hmac_sha256(secret, body);
    let expected = hex_encode(tag.as_slice());
    bytes_eq(stripped, expected.as_slice())
}

/// The signature value a well-behaved sender attaches for the given secret
/// and body: `sha256=` followed by the lowercase hex tag.
pub fn expected_signature(secret: &[u8], body: &[u8]) -> (s: Vec<u8>)
    ensures
        s@ == signature_prefix() + hex_bytes(hmac_sha256_of(secret@, body@)),
{
    let tag = hmac_sha256(secret, body);
    let hex = hex_encode(tag.as_slice());
    let mut out = signature_prefix_vec();
    let mut i: usize = 0;
    while i < hex.len()
        invariant
            i <= hex@.len(),
            hex@ == hex_bytes(hmac_sha256_of(secret@, body@)),
            out@ == signature_prefix() + hex@.take(i as int),
        decreases hex@.len() - i,
    {
        out.push(hex[i]);
        i = i + 1;
        proof {
            assert(signature_prefix() + hex@.take(i as int) =~= (signature_prefix()
                + hex@.take(i - 1)).push(hex@[i - 1]));
        }
    }
    proof {
        assert(hex@.take(hex@.len() as int) =~= hex@);
    }
    out
}

proof fn lemma_hex_never_prefixed(d: Seq<u8>)
    ensures
        strip_signature_prefix(hex_bytes(d)) == hex_bytes(d),
{
    let h = hex_bytes(d);
    if signature_prefix().is_prefix_of(h) {
        assert(h[6] == signature_prefix()[6]);
        assert(signature_prefix()[6] == 61);
        assert(h[6] == hex_digit((d[3] / 16) as u8));
        assert(d[3] / 16 < 16);
        assert(hex_digit((d[3] / 16) as u8) != 61);
        assert(false);
    }
}

/// A signature built as `expected_signature` builds it — the prefix and
/// the hex tag of the very body and secret — always verifies.
pub proof fn lemma_expected_signature_verifies(secret: Seq<u8>, body: Seq<u8>)
    ensures
        signature_matches(
            secret,
            body,
            signature_prefix() + hex_bytes(hmac_sha256_of(secret, body)),
        ),
{
    let h = hex_bytes(hmac_sha256_of(secret, body));
    let full = signature_prefix() + h;
    assert(full.subrange(0, 7) =~= signature_prefix());
    assert(signature_prefix().is_prefix_of(full));
    assert(full.skip(7) =~= h);
    lemma_hex_never_prefixed(hmac_sha256_of(secret, body));
}

/// A value that does not begin with `sha256=` is compared exactly as it
/// stands: stripping changes nothing about it.
pub proof fn lemma_unprefixed_value_compared_literally(sig: Seq<u8>)
    requires
        !signature_prefix().is_prefix_of(sig),
    ensures
        strip_signature_prefix(sig) == sig,
{
}

/// The prefixed signature value itself never equals the bare hex tag it
/// carries: without the stripping step no well-formed value could match.
pub proof fn lemma_stripping_required(d: Seq<u8>)
    ensures
        signature_prefix() + hex_bytes(d) != hex_bytes(d),
{
    assert((signature_prefix() + hex_bytes(d)).len() != hex_bytes(d).len());
}

} // verus!
