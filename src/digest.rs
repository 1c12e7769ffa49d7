//! Content identity: the cache key of a byte payload is the lower-case hex
//! form of its SHA-256 digest.

use vstd::prelude::*;

use crate::hex::{encode, hex_of, lemma_hex_injective};

verus! {

/// The SHA-256 digest of a byte string.
pub uninterp spec fn sha256_of(data: Seq<u8>) -> Seq<u8>;

/// Relies on `sha2::Sha256::digest`: the 32-byte SHA-256 digest of `data`.
#[verifier::external_body]
fn sha256(data: &[u8]) -> (r: Vec<u8>)
    ensures
        r@ == sha256_of(data@),
        r@.len() == 32,
{
    <sha2::Sha256 as sha2::Digest>::digest(data).to_vec()
}

/// The cache key of a payload: its digest written as 64 hex digits.
pub open spec fn content_hash(data: Seq<u8>) -> Seq<char> {
    hex_of(sha256_of(data))
}

/// Computes the cache key of `data`.
pub fn compute_hash(data: &[u8]) -> (r: String)
    ensures
        r@ == content_hash(data@),
        r@.len() == 64,
{
    let digest = sha256(data);
    encode(digest.as_slice())
}

/// The cache key depends on the payload's bytes alone: equal payloads get
/// equal keys, in every computation and in every process.
pub proof fn lemma_hash_deterministic(a: Seq<u8>, b: Seq<u8>)
    requires
        a == b,
    ensures
        content_hash(a) == content_hash(b),
{
}

/// Two payloads share a cache key exactly when they share a digest.
pub proof fn lemma_equal_keys_equal_digests(a: Seq<u8>, b: Seq<u8>)
    ensures
        content_hash(a) == content_hash(b) <==> sha256_of(a) == sha256_of(b),
{
    if content_hash(a) == content_hash(b) {
        lemma_hex_injective(sha256_of(a), sha256_of(b));
    }
}

} // verus!
