//! A zero-knowledge proof of knowledge of a SHA-256 preimage, with the
//! plain-value logic around the circuit stated and proved here.

mod bits;
mod digest;
mod endian;
mod ownership;
mod packing;

pub use bits::{
    bit_of, le_bits, lemma_same_allocation_shape, planned_bit_values, preimage_bit_values,
    PREIMAGE_LEN,
};
pub use digest::{preimage_public_inputs, sha256_of};
pub use endian::{flip_endianness_order, flip_index, flip_seq, lemma_flip_round_trip};
pub use ownership::{generator_times, Ownership, PublicKey, SecretKey};
pub use packing::{
    chunk, digest_public_inputs, lemma_chunks_partition, num_chunks, packed_inputs, packed_scalar,
    PACK_WIDTH,
};
