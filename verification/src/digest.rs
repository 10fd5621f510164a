//! BLAKE3 digests and their hex spelling.

use vstd::prelude::*;
use crate::laws::lemma_lower_hex_len;
use crate::text::lower_hex;

verus! {

/// The 32-byte BLAKE3 digest that `blake3::hash` computes.
pub uninterp spec fn blake3_digest(input: Seq<u8>) -> Seq<u8>;

/// `blake3::hash`: the digest is only named (the hash function is not
/// restated here); the 32-byte length comes from its `[u8; 32]` result.
#[verifier::external_body]
pub(crate) fn blake3_hash(input: &[u8]) -> (digest: [u8; 32])
    ensures
        digest@ == blake3_digest(input@),
{
    *blake3::hash(input).as_bytes()
}

/// `blake3::Hash::to_hex` on a digest: lowercase hexadecimal, two digits
/// per byte, high nibble first, as its documentation and source state.
#[verifier::external_body]
fn blake3_to_hex(digest: &[u8; 32]) -> (res: String)
    ensures
        res@ == lower_hex(digest@),
{
    blake3::Hash::from_bytes(*digest).to_hex().to_string()
}

/// The lowercase hex spelling of the BLAKE3 digest of `bytes`: 64 digits.
pub fn hash_hex(bytes: &[u8]) -> (res: String)
    ensures
        res@ == lower_hex(blake3_digest(bytes@)),
        res@.len() == 64,
{
    let digest = blake3_hash(bytes);
    let res = blake3_to_hex(&digest);
    proof {
        lemma_lower_hex_len(digest@);
    }
    res
}

} // verus!
