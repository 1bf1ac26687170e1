// Tests for the transcript and the native / in-circuit agreement of the
// sponge and the instance hash.

use folding_schemes::augmented::CommittedInstanceVar;
use folding_schemes::curve::G1;
use folding_schemes::field::{fr_from_le_bits, Fr};
use folding_schemes::nova::CommittedInstance;
use folding_schemes::r1cs_var::{fvar_from_le_bits, CsRef, FVar, TranscriptVar};
use folding_schemes::transcript::{poseidon_test_config, Transcript};

#[test]
fn test_transcripts_agree_on_equal_inputs() {
    // prover and verifier transcripts fed identically answer identical
    // challenges
    let cfg = poseidon_test_config();
    let mut t1 = Transcript::new(&cfg);
    let mut t2 = Transcript::new(&cfg);
    let xs = vec![Fr::from_u64(1), Fr::from_u64(2), Fr::from_u64(3)];
    t1.absorb_vec(&xs);
    t2.absorb_vec(&xs);
    let c1 = t1.get_challenge();
    let c2 = t2.get_challenge();
    assert!(c1.equals(&c2));
    // and so do later squeezes
    t1.absorb(&c1);
    t2.absorb(&c2);
    let b1 = t1.get_challenge_nbits(128);
    let b2 = t2.get_challenge_nbits(128);
    assert_eq!(b1, b2);
}

#[test]
fn test_transcripts_differ_on_different_inputs() {
    let cfg = poseidon_test_config();
    let mut t1 = Transcript::new(&cfg);
    let mut t2 = Transcript::new(&cfg);
    t1.absorb(&Fr::from_u64(1));
    t2.absorb(&Fr::from_u64(2));
    let c1 = t1.get_challenge();
    let c2 = t2.get_challenge();
    assert!(!c1.equals(&c2));
}

#[test]
fn test_native_and_circuit_sponge_agree() {
    // the same sequence of absorbs and squeezes against the native and
    // the in-circuit sponge produces equal field elements
    let cfg = poseidon_test_config();
    let mut native = Transcript::new(&cfg);
    let cs = CsRef::new();
    let mut circuit = TranscriptVar::new(&cs, &cfg);

    let xs = vec![Fr::from_u64(10), Fr::from_u64(20), Fr::from_u64(30)];
    native.absorb_vec(&xs);
    let mut xvars: Vec<FVar> = Vec::new();
    for x in &xs {
        xvars.push(FVar::witness(&cs, x).unwrap());
    }
    circuit.absorb_vec(&xvars).unwrap();

    let c_native = native.get_challenge();
    let c_circuit = circuit.get_challenge().unwrap();
    assert!(c_circuit.value().unwrap().equals(&c_native));

    // the bit squeeze agrees too, compared after recomposition
    let bits_native = native.get_challenge_nbits(128);
    let bits_circuit = circuit.get_challenge_nbits(128).unwrap();
    let r_native = fr_from_le_bits(&bits_native);
    let r_circuit = fvar_from_le_bits(&bits_circuit).unwrap();
    assert!(r_circuit.value().unwrap().equals(&r_native));
}

#[test]
fn test_native_and_circuit_hash_agree() {
    // for a committed instance with non-trivial commitments, the native
    // instance hash equals the value of the in-circuit hash gadget
    let cfg = poseidon_test_config();
    let mut rng = folding_schemes::rng::Rng::new_test();
    let p = folding_schemes::curve::g1_rand(&mut rng).into_group();
    let q = folding_schemes::curve::g1_rand(&mut rng).into_group();
    let ci = CommittedInstance { cmE: p, u: Fr::from_u64(3), cmW: q, x: vec![Fr::from_u64(9)] };

    let i = Fr::from_u64(2);
    let z0 = vec![Fr::from_u64(3)];
    let zi = vec![Fr::from_u64(35)];
    let h_native = ci.hash(&cfg, &i, &z0, &zi);

    let cs = CsRef::new();
    let ci_var = CommittedInstanceVar::new_witness(&cs, &ci).unwrap();
    let i_var = FVar::witness(&cs, &i).unwrap();
    let z0_var = folding_schemes::augmented::witness_vec(&cs, &z0).unwrap();
    let zi_var = folding_schemes::augmented::witness_vec(&cs, &zi).unwrap();
    let h_var = ci_var.hash(&cs, &cfg, &i_var, &z0_var, &zi_var).unwrap();
    assert!(h_var.value().unwrap().equals(&h_native));
}

#[test]
fn test_hash_handles_identity_points() {
    // the affine identity is read as (0, 1) on both sides
    let cfg = poseidon_test_config();
    let ci = CommittedInstance::dummy(1);
    let i = Fr::zero();
    let z = vec![Fr::from_u64(5)];
    let h_native = ci.hash(&cfg, &i, &z, &z);

    let cs = CsRef::new();
    let ci_var = CommittedInstanceVar::new_witness(&cs, &ci).unwrap();
    let i_var = FVar::witness(&cs, &i).unwrap();
    let z_var = folding_schemes::augmented::witness_vec(&cs, &z).unwrap();
    let h_var = ci_var.hash(&cs, &cfg, &i_var, &z_var, &z_var).unwrap();
    assert!(h_var.value().unwrap().equals(&h_native));
    let _ = G1::zero();
}
