//! The cryptographic hash behind the hashed address-mapping policy.

use vstd::prelude::*;
use blake2::Digest;

verus! {

/// The 32-byte BLAKE2b-256 digest of a byte string. The digest is a function
/// of the input alone; nothing further is assumed of its value.
pub uninterp spec fn blake2_256_of(data: Seq<u8>) -> Seq<u8>;

/// Relies on blake2's `Blake2b256` (BLAKE2b with fixed 32-byte output):
/// the digest depends on the input bytes alone and is 32 bytes long.
#[verifier::external_body]
pub(crate) fn blake2_256(data: &Vec<u8>) -> (r: Vec<u8>)
    ensures
        r@ == blake2_256_of(data@),
        r@.len() == 32,
{
    let digest = blake2::Blake2b256::digest(data.as_slice());
    digest.as_slice().to_vec()
}

} // verus!
