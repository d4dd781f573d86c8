use bellman::gadgets::boolean::{AllocatedBit, Boolean};
use bellman::gadgets::multipack;
use bellman::gadgets::sha256::sha256;
use bellman::gadgets::test::TestConstraintSystem;
use bellman::{Circuit, ConstraintSystem, SynthesisError};
use bls12_381::Scalar;
use ff::PrimeField;
use sha2::{Digest, Sha256};
use zk_sha256::{flip_endianness_order, preimage_bit_values, preimage_public_inputs};

fn flip(data: &[Boolean]) -> Vec<Boolean> {
    flip_endianness_order(data.len())
        .into_iter()
        .map(|j| data[j].clone())
        .collect()
}

struct Sha256Circuit {
    preimage: Option<[u8; 160]>,
}

impl<S: PrimeField> Circuit<S> for Sha256Circuit {
    fn synthesize<CS: ConstraintSystem<S>>(self, cs: &mut CS) -> Result<(), SynthesisError> {
        let bits = preimage_bit_values(self.preimage)
            .into_iter()
            .enumerate()
            .map(|(i, b)| AllocatedBit::alloc(cs.namespace(|| format!("preimage bit {}", i)), b))
            .map(|b| b.map(Boolean::from))
            .collect::<Result<Vec<_>, _>>()?;
        let res = sha256(cs.namespace(|| "SHA-256(preimage)"), &flip(&bits))?;
        multipack::pack_into_inputs(cs.namespace(|| "pack hash"), &flip(&res))
    }
}

fn synthesized(preimage: [u8; 160]) -> TestConstraintSystem<Scalar> {
    let mut cs = TestConstraintSystem::<Scalar>::new();
    Sha256Circuit { preimage: Some(preimage) }
        .synthesize(&mut cs)
        .unwrap();
    cs
}

#[test]
fn circuit_output_packs_the_sha256_digest() {
    let cs = synthesized([52u8; 160]);
    assert!(cs.is_satisfied());
    assert_eq!(cs.num_inputs(), 3);
    assert!(cs.verify(&preimage_public_inputs(&vec![52u8; 160])));
}

#[test]
fn circuit_output_differs_for_another_preimage() {
    let cs = synthesized([52u8; 160]);
    assert!(!cs.verify(&preimage_public_inputs(&vec![53u8; 160])));
    let hash = Sha256::digest(&[52u8; 160]);
    let mut bits = multipack::bytes_to_bits_le(&hash);
    bits[100] = !bits[100];
    assert!(!cs.verify(&multipack::compute_multipacking(&bits)));
}
