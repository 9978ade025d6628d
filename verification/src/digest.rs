//! Content digests: the SHA-256 digest of a string, and its lowercase hex
//! rendering used for cache keys and privacy-preserving indexes.

use vstd::prelude::*;
use crate::text::{hex_of, to_hex};
use sha2::{Digest, Sha256};

verus! {

/// The SHA-256 digest of a string's UTF-8 bytes: thirty-two bytes,
/// determined by the characters alone.
pub uninterp spec fn sha256_of(s: Seq<char>) -> Seq<u8>;

/// Relies on sha2's `Sha256` through `Digest::digest`: the SHA-256 digest of
/// the string's UTF-8 bytes, a 32-byte value that depends on the input
/// characters alone.
#[verifier::external_body]
fn sha256_digest(s: &str) -> (r: Vec<u8>)
    ensures
        r@ == sha256_of(s@),
        r@.len() == 32,
{
    Sha256::digest(s.as_bytes()).to_vec()
}

/// Hash of a sensitive string for indexed storage, revealing nothing of the
/// plaintext: the lowercase hex of its SHA-256 digest, always sixty-four
/// digits.
pub fn hash_for_indexing(data: &str) -> (r: String)
    ensures
        r@ == hex_of(sha256_of(data@)),
        r@.len() == 64,
{
    let d = sha256_digest(data);
    let r = to_hex(d.as_slice());
    proof {
        crate::text::lemma_hex_of_len(d@);
    }
    r
}

} // verus!
