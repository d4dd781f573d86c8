use bls12_381::{G1Affine, G1Projective, Scalar};
use pairing::group::Curve;
use zk_sha256::{Ownership, PublicKey, SecretKey};

#[test]
pub fn ownership_test() {}

#[test]
fn public_key_of_one_is_the_generator() {
    let pk = PublicKey::from_sk(SecretKey { sk: Scalar::one() });
    assert_eq!(pk.pk, G1Affine::generator());
}

#[test]
fn public_key_of_two_doubles_the_generator() {
    let pk = PublicKey::from_sk(SecretKey { sk: Scalar::from(2u64) });
    assert_eq!(pk.pk, G1Projective::generator().double().to_affine());
    assert_ne!(pk.pk, G1Affine::generator());
}

#[test]
fn public_key_of_generated_secret_is_its_multiple() {
    let sk = SecretKey::generate_sk();
    let expected = (G1Affine::generator() * sk.sk).to_affine();
    assert_eq!(PublicKey::from_sk(sk).pk, expected);
}

#[test]
fn generated_secrets_and_their_keys_differ() {
    let a = SecretKey::generate_sk();
    let b = SecretKey::generate_sk();
    assert_ne!(a.sk, b.sk);
    assert_ne!(PublicKey::from_sk(a).pk, PublicKey::from_sk(b).pk);
}

#[test]
fn ownership_starts_unknown() {
    let o: Ownership<Scalar> = Ownership { sk: None, pk: None };
    assert!(o.sk.is_none() && o.pk.is_none());
}
