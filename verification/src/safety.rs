//! The safety tag deriver: a stable, content-addressed identifier for an
//! operation, derived from its source prefix and destination.
//!
//! The tag is the URL-safe, padding-free base64 encoding of a SHA-256
//! digest over the prefix's bytes followed by the destination's bytes,
//! truncated to 32 characters. Identical inputs always give the identical
//! tag. The two inputs are concatenated without a separator, so pairs that
//! split the same character sequence differently can alias; this keeps the
//! derivation compatible with earlier runs.

use vstd::prelude::*;

use base64::Engine;
use sha2::Digest;

verus! {

/// The SHA-256 digest of a byte sequence.
pub uninterp spec fn sha256_of(bytes: Seq<u8>) -> Seq<u8>;

/// Relies on sha2's `Sha256`: the digest depends on the input bytes alone
/// and is 32 bytes long.
#[verifier::external_body]
fn sha256(bytes: &[u8]) -> (r: Vec<u8>)
    ensures
        r@ == sha256_of(bytes@),
        r@.len() == 32,
{
    sha2::Sha256::digest(bytes).to_vec()
}

/// The URL-safe, padding-free base64 encoding of a byte sequence.
pub uninterp spec fn base64url_of(bytes: Seq<u8>) -> Seq<char>;

/// Relies on base64's `URL_SAFE_NO_PAD` engine: the encoding depends on the
/// input bytes alone, and spends four characters on each group of three
/// bytes, rounding up.
#[verifier::external_body]
fn base64url_nopad(bytes: &[u8]) -> (r: String)
    requires
        bytes@.len() * 4 + 2 <= usize::MAX,
    ensures
        r@ == base64url_of(bytes@),
        r@.len() == (bytes@.len() * 4 + 2) / 3,
{
    base64::engine::general_purpose::URL_SAFE_NO_PAD.encode(bytes)
}

/// The safety tag of a `(prefix, destination)` pair.
pub open spec fn safety_tag_of(prefix: Seq<char>, destination: Seq<char>) -> Seq<char> {
    base64url_of(
        sha256_of(vstd::utf8::encode_utf8(prefix) + vstd::utf8::encode_utf8(destination)),
    ).take(32)
}

/// Derives the safety tag of an operation from its prefix and destination.
pub fn derive(prefix: &str, destination: &str) -> (r: String)
    ensures
        r@ == safety_tag_of(prefix@, destination@),
        r@.len() == 32,
{
    let mut input = prefix.as_bytes_vec();
    let mut rest = destination.as_bytes_vec();
    input.append(&mut rest);
    let digest = sha256(input.as_slice());
    let encoded = base64url_nopad(digest.as_slice());
    let tag = encoded.as_str().substring_char(0, 32);
    proof {
        assert(tag@ =~= safety_tag_of(prefix@, destination@));
    }
    tag.to_owned()
}

/// Deriving is deterministic: two calls on an identical `(prefix,
/// destination)` pair return the identical safety tag.
pub proof fn lemma_derive_deterministic(
    p1: Seq<char>,
    d1: Seq<char>,
    p2: Seq<char>,
    d2: Seq<char>,
)
    requires
        p1 == p2,
        d1 == d2,
    ensures
        safety_tag_of(p1, d1) == safety_tag_of(p2, d2),
{
}

} // verus!
