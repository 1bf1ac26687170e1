// Tests for the KZG and Pedersen commitment schemes.

use folding_schemes::field::Fr;
use folding_schemes::kzg::KZG;
use folding_schemes::pedersen::{pedersen_commit, pedersen_setup};
use folding_schemes::rng::{fr_rand, Rng};
use folding_schemes::transcript::{poseidon_canonical_config, Transcript};
use folding_schemes::Error;

#[test]
fn test_kzg_commitment_scheme() {
    let mut rng = Rng::new_test();
    let cfg = poseidon_canonical_config();
    let mut transcript_p = Transcript::new(&cfg);
    let mut transcript_v = Transcript::new(&cfg);

    let n = 10;
    let (pk, vk) = KZG::setup(&mut rng, n).unwrap();

    let mut v: Vec<Fr> = Vec::new();
    for _ in 0..n {
        v.push(fr_rand(&mut rng));
    }
    let cm = KZG::commit(&pk, &v, &Fr::zero()).unwrap();

    let proof = KZG::prove(&pk, &mut transcript_p, &cm, &v, &Fr::zero()).unwrap();

    KZG::verify(&vk, &mut transcript_v, &cm, &proof).unwrap();
}

#[test]
fn test_kzg_opening_rejects_wrong_eval() {
    // setup for 16, commit a random vector of length 10, open at the
    // squeezed challenge; a shifted evaluation must be rejected.
    let mut rng = Rng::new_test();
    let cfg = poseidon_canonical_config();
    let mut transcript_p = Transcript::new(&cfg);
    let mut transcript_v = Transcript::new(&cfg);

    let (pk, vk) = KZG::setup(&mut rng, 16).unwrap();
    let mut v: Vec<Fr> = Vec::new();
    for _ in 0..10 {
        v.push(fr_rand(&mut rng));
    }
    let cm = KZG::commit(&pk, &v, &Fr::zero()).unwrap();
    let mut proof = KZG::prove(&pk, &mut transcript_p, &cm, &v, &Fr::zero()).unwrap();

    // the same transcript accepts the honest proof
    transcript_v.absorb_point(&cm);
    let challenge = transcript_v.get_challenge();
    KZG::verify_with_challenge(&vk, &challenge, &cm, &proof).unwrap();

    // a mutated evaluation is rejected
    proof.eval = proof.eval.add(&Fr::one());
    let res = KZG::verify_with_challenge(&vk, &challenge, &cm, &proof);
    assert!(matches!(res, Err(Error::CommitmentVerificationFail)));
}

#[test]
fn test_kzg_rejects_too_large_polynomial() {
    let mut rng = Rng::new_test();
    let (pk, _vk) = KZG::setup(&mut rng, 4).unwrap();
    // the key holds 5 powers; a polynomial with 6 coefficients, the last
    // one non-zero, is over the bound
    let mut v: Vec<Fr> = Vec::new();
    for _ in 0..6 {
        v.push(Fr::one());
    }
    let res = KZG::commit(&pk, &v, &Fr::zero());
    assert!(matches!(res, Err(Error::PolynomialTooLarge(_, _))));
}

#[test]
fn test_kzg_rejects_nonzero_blinding() {
    let mut rng = Rng::new_test();
    let (pk, _vk) = KZG::setup(&mut rng, 4).unwrap();
    let v = vec![Fr::one(), Fr::one()];
    let res = KZG::commit(&pk, &v, &Fr::one());
    assert!(matches!(res, Err(Error::HidingNotSupported)));
}

#[test]
fn test_pedersen_rejects_nonzero_blinding() {
    let mut rng = Rng::new_test();
    let params = pedersen_setup(&mut rng, 8);
    let v = vec![Fr::one(), Fr::from_u64(2)];
    let res = pedersen_commit(&params, &v, &Fr::one());
    assert!(matches!(res, Err(Error::BlindingNotZero)));
}

#[test]
fn test_pedersen_commit_deterministic() {
    let mut rng = Rng::new_test();
    let params = pedersen_setup(&mut rng, 8);
    let v = vec![Fr::from_u64(7), Fr::from_u64(9)];
    let c1 = pedersen_commit(&params, &v, &Fr::zero()).unwrap();
    let c2 = pedersen_commit(&params, &v, &Fr::zero()).unwrap();
    assert!(c1.equals(&c2));
}
