// End-to-end tests of the IVC driver: folding steps, state advancement,
// verification, resumption, and rejection of tampered proofs.

use folding_schemes::field::Fr;
use folding_schemes::frontend::{CubicFCircuit, IdentityFCircuit};
use folding_schemes::ivc::{ivc_verify, IVC};
use folding_schemes::rng::Rng;
use folding_schemes::transcript::poseidon_test_config;
use folding_schemes::Error;

#[test]
fn test_ivc() {
    let mut rng = Rng::new_test();
    let poseidon_config = poseidon_test_config();

    let f_circuit = CubicFCircuit {};
    let z_0 = vec![Fr::from_u64(3)];

    let mut ivc = IVC::new(&mut rng, poseidon_config, f_circuit, z_0).unwrap();
    let ext: Vec<Fr> = Vec::new();
    for _ in 0..4 {
        ivc.prove_step(&ext).unwrap();
    }

    ivc.r1cs.check_instance_relation(&ivc.w_i, &ivc.u_i).unwrap();
    ivc.r1cs.check_instance_relation(&ivc.W_i, &ivc.U_i).unwrap();
}

#[test]
fn test_ivc_cubic_two_steps() {
    // F(x) = x^3 + x + 5 starting at 3: one step gives 35, two give 42915
    let mut rng = Rng::new_test();
    let poseidon_config = poseidon_test_config();
    let f_circuit = CubicFCircuit {};
    let z_0 = vec![Fr::from_u64(3)];

    let mut ivc = IVC::new(&mut rng, poseidon_config, f_circuit, z_0).unwrap();
    let ext: Vec<Fr> = Vec::new();

    ivc.prove_step(&ext).unwrap();
    assert!(ivc.state()[0].equals(&Fr::from_u64(35)));

    ivc.prove_step(&ext).unwrap();
    assert!(ivc.state()[0].equals(&Fr::from_u64(42915)));

    let proof = ivc.ivc_proof();
    let mut tampered = proof.clone();
    let vp = ivc.into_verifier_param();
    ivc_verify(&vp, &proof).unwrap();

    // flipping the incoming instance's public input must be rejected
    tampered.u_i.x[0] = tampered.u_i.x[0].add(&Fr::one());
    let res = ivc_verify(&vp, &tampered);
    assert!(matches!(res, Err(Error::NotSatisfied)));

    // so must a non-zero blinding factor
    let mut tampered2 = proof.clone();
    tampered2.W_i.rE = Fr::one();
    let res2 = ivc_verify(&vp, &tampered2);
    assert!(matches!(res2, Err(Error::IVCVerificationFail)));
}

#[test]
fn test_ivc_identity_ten_steps() {
    // the identity step over a two-element state keeps [0, 1] for ten
    // steps, and the proof verifies
    let mut rng = Rng::new_test();
    let poseidon_config = poseidon_test_config();
    let f_circuit = IdentityFCircuit { len: 2 };
    let z_0 = vec![Fr::from_u64(0), Fr::from_u64(1)];

    let mut ivc = IVC::new(&mut rng, poseidon_config, f_circuit, z_0).unwrap();
    let ext: Vec<Fr> = Vec::new();
    for _ in 0..10 {
        ivc.prove_step(&ext).unwrap();
    }
    let z = ivc.state();
    assert!(z[0].equals(&Fr::from_u64(0)));
    assert!(z[1].equals(&Fr::from_u64(1)));

    let proof = ivc.ivc_proof();
    let vp = ivc.into_verifier_param();
    ivc_verify(&vp, &proof).unwrap();
}

#[test]
fn test_ivc_rejects_zero_steps() {
    // a proof for i = 0 is rejected with NotEnoughSteps
    let mut rng = Rng::new_test();
    let poseidon_config = poseidon_test_config();
    let f_circuit = CubicFCircuit {};
    let z_0 = vec![Fr::from_u64(3)];

    let ivc = IVC::new(&mut rng, poseidon_config, f_circuit, z_0).unwrap();
    let proof = ivc.ivc_proof();
    let vp = ivc.into_verifier_param();
    let res = ivc_verify(&vp, &proof);
    assert!(matches!(res, Err(Error::NotEnoughSteps)));
}

#[test]
fn test_ivc_resume_from_proof() {
    // a driver rebuilt from a proof continues to fold
    let mut rng = Rng::new_test();
    let poseidon_config = poseidon_test_config();
    let f_circuit = CubicFCircuit {};
    let z_0 = vec![Fr::from_u64(3)];

    let mut ivc = IVC::new(&mut rng, poseidon_config, f_circuit, z_0).unwrap();
    let ext: Vec<Fr> = Vec::new();
    ivc.prove_step(&ext).unwrap();
    ivc.prove_step(&ext).unwrap();

    let proof = ivc.ivc_proof();
    let mut resumed = IVC::from_ivc_proof(
        proof,
        CubicFCircuit {},
        ivc.r1cs,
        ivc.poseidon_config,
        ivc.pedersen_params,
        ivc.pp_hash,
    )
    .unwrap();
    resumed.prove_step(&ext).unwrap();
    assert_eq!(resumed.i, 3);

    let proof2 = resumed.ivc_proof();
    let vp = resumed.into_verifier_param();
    ivc_verify(&vp, &proof2).unwrap();
}
