use vstd::prelude::*;
use bls12_381::Scalar;
use crate::bits::le_bits;

verus! {

/// The number of bits that one element of the scalar field of BLS12-381 holds
/// in a packed public input (`Scalar::CAPACITY`).
pub const PACK_WIDTH: usize = 254;

/// The number of field elements that `n` bits are packed into.
pub open spec fn num_chunks(n: nat) -> nat {
    ((n + 253) / 254) as nat
}

/// The bits that the `i`-th packed element holds.
pub open spec fn chunk(bits: Seq<bool>, i: int) -> Seq<bool> {
    let lo = 254 * i;
    let hi = if 254 * (i + 1) < bits.len() { 254 * (i + 1) } else { bits.len() as int };
    bits.subrange(lo, hi)
}

/// The field element whose little-endian bit expansion is `bits`.
pub uninterp spec fn packed_scalar(bits: Seq<bool>) -> Scalar;

/// The public inputs that a sequence of bits is packed into.
pub open spec fn packed_inputs(bits: Seq<bool>) -> Seq<Scalar> {
    Seq::new(num_chunks(bits.len()), |i: int| packed_scalar(chunk(bits, i)))
}

/// Relies on `bellman::gadgets::multipack::bytes_to_bits_le`: the bits of each
/// byte in turn, least significant first.
#[verifier::external_body]
fn bytes_to_bits_le(bytes: &Vec<u8>) -> (r: Vec<bool>)
    ensures
        r@ == le_bits(bytes@),
{
    bellman::gadgets::multipack::bytes_to_bits_le(bytes)
}

/// Relies on `bellman::gadgets::multipack::compute_multipacking` over
/// `bls12_381::Scalar`: one field element for each run of `CAPACITY` bits,
/// the last run possibly shorter, each made from its own run alone.
#[verifier::external_body]
fn compute_multipacking(bits: &Vec<bool>) -> (r: Vec<Scalar>)
    ensures
        r@.len() == num_chunks(bits@.len()),
        forall|i: int| 0 <= i < r@.len() ==> r@[i] == packed_scalar(chunk(bits@, i)),
{
    bellman::gadgets::multipack::compute_multipacking::<Scalar>(bits)
}

/// Each bit lands in exactly one packed element, in order: bit `j` is bit
/// `j % 254` of element `j / 254`, and no element holds more bits than a field
/// element can carry. Reading the elements' bits back in order thus gives the
/// sequence again.
pub proof fn lemma_chunks_partition(bits: Seq<bool>)
    ensures
        forall|i: int| 0 <= i < num_chunks(bits.len()) ==> 0 < #[trigger] chunk(bits, i).len() <= 254,
        forall|j: int| 0 <= j < bits.len() ==> chunk(bits, j / 254)[j % 254] == #[trigger] bits[j],
        forall|j: int| 0 <= j < bits.len() ==> 0 <= #[trigger] (j / 254) < num_chunks(bits.len()),
{
    assert forall|i: int| 0 <= i < num_chunks(bits.len()) implies 0 < #[trigger] chunk(bits, i).len() <= 254 by {
        assert(254 * i < bits.len()) by (nonlinear_arith)
            requires 0 <= i, i < (bits.len() + 253) / 254;
    }
    assert forall|j: int| 0 <= j < bits.len() implies chunk(bits, j / 254)[j % 254] == #[trigger] bits[j] by {
        let i = j / 254;
        assert(254 * i <= j < 254 * (i + 1)) by (nonlinear_arith)
            requires 0 <= j, i == j / 254;
    }
    assert forall|j: int| 0 <= j < bits.len() implies 0 <= #[trigger] (j / 254) < num_chunks(bits.len()) by {
        assert(j / 254 < (bits.len() + 253) / 254) by (nonlinear_arith)
            requires 0 <= j < bits.len();
    }
}

/// The public inputs that a verifier derives from a digest: its bits, least
/// significant first within each byte, packed into field elements.
pub fn digest_public_inputs(digest: &Vec<u8>) -> (r: Vec<Scalar>)
    requires
        digest@.len() <= usize::MAX / 8,
    ensures
        r@ == packed_inputs(le_bits(digest@)),
        r@.len() == num_chunks(8 * digest@.len()),
{
    let bits = bytes_to_bits_le(digest);
    let r = compute_multipacking(&bits);
    assert(r@ =~= packed_inputs(bits@));
    r
}

} // verus!
