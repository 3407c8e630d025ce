//! Content digests: SHA-256 in lowercase hex, and the `sha256:` prefix.
use vstd::prelude::*;
use crate::text::{seq_starts_with, str_eq, str_starts_with};

verus! {

/// The SHA-256 of `b`, written as lowercase hex digits.
pub uninterp spec fn sha256_hex(b: Seq<u8>) -> Seq<char>;

/// `c` is a lowercase hex digit.
pub open spec fn is_lower_hex(c: char) -> bool {
    ('0' <= c && c <= '9') || ('a' <= c && c <= 'f')
}

/// `s` is a SHA-256 digest in its hex form: 64 lowercase hex digits.
pub open spec fn is_hex_digest(s: Seq<char>) -> bool {
    s.len() == 64 && forall|i: int| 0 <= i < s.len() ==> is_lower_hex(#[trigger] s[i])
}

/// Relies on sha256::digest, which hex-encodes (lowercase) the 32-byte
/// SHA-256 of its input.
#[verifier::external_body]
fn sha256_of(b: &[u8]) -> (r: String)
    ensures
        r@ == sha256_hex(b@),
        is_hex_digest(r@),
{
    sha256::digest(b)
}

/// The algorithm prefix of a wire digest.
pub open spec fn sha256_prefix() -> Seq<char> {
    "sha256:"@
}

/// `s` without a leading `sha256:`.
pub open spec fn strip_algo(s: Seq<char>) -> Seq<char> {
    if seq_starts_with(s, sha256_prefix()) {
        s.skip(7)
    } else {
        s
    }
}

/// The hex digest of `bytes`.
pub fn content_digest(bytes: &[u8]) -> (r: String)
    ensures
        r@ == sha256_hex(bytes@),
        is_hex_digest(r@),
{
    sha256_of(bytes)
}

/// `s` without a leading `sha256:`, if it has one.
pub fn strip_algo_prefix(s: &str) -> (r: &str)
    ensures
        r@ == strip_algo(s@),
{
    proof {
        reveal_strlit("sha256:");
    }
    if str_starts_with(s, "sha256:") {
        let n = s.unicode_len();
        let r = s.substring_char(7, n);
        assert(r@ =~= s@.skip(7));
        r
    } else {
        s
    }
}

/// Whether a computed hex digest agrees with a requested wire digest.
pub fn digest_agrees(actual: &str, requested: &str) -> (r: bool)
    ensures
        r == (actual@ == strip_algo(requested@)),
{
    str_eq(actual, strip_algo_prefix(requested))
}

/// Whether `bytes` hash to the requested digest (with or without
/// `sha256:`).
pub fn blob_digest_matches(bytes: &[u8], requested: &str) -> (r: bool)
    ensures
        r == (sha256_hex(bytes@) == strip_algo(requested@)),
{
    let actual = sha256_of(bytes);
    digest_agrees(actual.as_str(), requested)
}

/// The wire form `sha256:<hex>` of a hex digest.
pub fn wire_digest(hex: &str) -> (r: String)
    ensures
        r@ == sha256_prefix() + hex@,
{
    let mut r = String::from_str("sha256:");
    r.append(hex);
    r
}

/// Adding the prefix and stripping it gives the hex digest back.
pub proof fn lemma_strip_wire_digest(hex: Seq<char>)
    ensures
        strip_algo(sha256_prefix() + hex) == hex,
{
    reveal_strlit("sha256:");
    let w = sha256_prefix() + hex;
    assert(w.subrange(0, 7) =~= sha256_prefix());
    assert(w.skip(7) =~= hex);
}

} // verus!
