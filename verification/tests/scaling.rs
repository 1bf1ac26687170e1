// A larger step circuit: an IVC over a step of about 2^10 constraints,
// and monotonicity of the augmented circuit in the step size.

use folding_schemes::field::Fr;
use folding_schemes::frontend::CustomFCircuit;
use folding_schemes::ivc::{ivc_verify, IVC};
use folding_schemes::rng::Rng;
use folding_schemes::transcript::poseidon_test_config;

#[test]
fn test_custom_circuit_ivc() {
    let mut rng = Rng::new_test();
    let poseidon_config = poseidon_test_config();
    let f_circuit = CustomFCircuit { n_constraints: 1024 };
    let z_0 = vec![Fr::from_u64(5)];

    let mut ivc = IVC::new(&mut rng, poseidon_config, f_circuit, z_0).unwrap();
    let ext: Vec<Fr> = Vec::new();
    for _ in 0..5 {
        ivc.prove_step(&ext).unwrap();
    }
    let proof = ivc.ivc_proof();
    let vp = ivc.into_verifier_param();
    ivc_verify(&vp, &proof).unwrap();
}

#[test]
fn test_augmented_circuit_monotonic_in_step_size() {
    let poseidon_config = poseidon_test_config();
    let z_0 = vec![Fr::from_u64(5)];

    let mut rng = Rng::new_test();
    let small = IVC::new(
        &mut rng,
        poseidon_config.clone(),
        CustomFCircuit { n_constraints: 256 },
        z_0.clone(),
    )
    .unwrap();
    let mut rng2 = Rng::new_test();
    let large = IVC::new(
        &mut rng2,
        poseidon_config,
        CustomFCircuit { n_constraints: 1024 },
        z_0,
    )
    .unwrap();
    assert!(small.r1cs.num_constraints() <= large.r1cs.num_constraints());
}
