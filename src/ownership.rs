use vstd::prelude::*;
use bls12_381::{G1Affine, Scalar};
use ff::Field;
use pairing::group::Curve;
use rand::rngs::OsRng;

verus! {

#[verifier::external_type_specification]
#[verifier::external_body]
pub struct ExScalar(Scalar);

#[verifier::external_type_specification]
#[verifier::external_body]
pub struct ExG1Affine(G1Affine);

/// The point `s · G` of G1, in affine form, for the fixed generator `G`.
pub uninterp spec fn generator_times(s: Scalar) -> G1Affine;

/// Relies on `ff::Field::random` for `bls12_381::Scalar`, drawing from the
/// operating system's generator: a scalar of the field, of which nothing more
/// can be said.
#[verifier::external_body]
fn random_scalar() -> (r: Scalar) {
    Scalar::random(&mut OsRng)
}

/// Relies on `G1Affine::generator() * s` followed by `Curve::to_affine`: the
/// scalar multiple of the generator of G1, normalised to affine form. It
/// depends on the scalar alone.
#[verifier::external_body]
fn mul_generator(s: &Scalar) -> (r: G1Affine)
    ensures
        r == generator_times(*s),
{
    (G1Affine::generator() * s).to_affine()
}

/// A secret scalar of the ownership key pair.
pub struct SecretKey {
    pub sk: Scalar,
}

/// The public point that belongs to a secret scalar.
pub struct PublicKey {
    pub pk: G1Affine,
}

/// A statement of ownership over the prime field `S`: a secret scalar and a
/// public key, each known or not yet known.
pub struct Ownership<S> {
    pub sk: Option<S>,
    pub pk: Option<PublicKey>,
}

impl SecretKey {
    /// A secret key drawn uniformly from the scalar field.
    pub fn generate_sk() -> (r: Self) {
        SecretKey { sk: random_scalar() }
    }
}

impl PublicKey {
    /// The public key of `sk`: its scalar times the generator of G1.
    pub fn from_sk(sk: SecretKey) -> (r: Self)
        ensures
            r.pk == generator_times(sk.sk),
    {
        PublicKey { pk: mul_generator(&sk.sk) }
    }
}

} // verus!
