use vstd::prelude::*;
use bls12_381::Scalar;
use sha2::{Digest, Sha256};
use crate::bits::le_bits;
use crate::packing::{digest_public_inputs, num_chunks, packed_inputs};

verus! {

/// The SHA-256 digest of a byte string.
pub uninterp spec fn sha256_of(data: Seq<u8>) -> Seq<u8>;

/// Relies on `sha2::Sha256::digest`: the 32-byte SHA-256 digest of the data.
#[verifier::external_body]
fn sha256(data: &Vec<u8>) -> (r: Vec<u8>)
    ensures
        r@ == sha256_of(data@),
        r@.len() == 32,
{
    Sha256::digest(data.as_slice()).to_vec()
}

/// The public inputs under which a proof of knowledge of `preimage` verifies:
/// the SHA-256 digest of the preimage, packed as the circuit packs its output.
pub fn preimage_public_inputs(preimage: &Vec<u8>) -> (r: Vec<Scalar>)
    ensures
        r@ == packed_inputs(le_bits(sha256_of(preimage@))),
        r@.len() == 2,
{
    let digest = sha256(preimage);
    let r = digest_public_inputs(&digest);
    assert(num_chunks(8 * 32) == 2);
    r
}

} // verus!
