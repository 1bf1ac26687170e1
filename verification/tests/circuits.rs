// Tests of the gadget layer: the step gadgets and their constraint
// counts, non-native point allocation, the in-circuit sum-check
// verifier, and the multilinear-extension evaluation.

use folding_schemes::augmented::witness_vec;
use folding_schemes::curve::G1;
use folding_schemes::field::Fr;
use folding_schemes::frontend::{CubicFCircuit, CustomFCircuit, FCircuit};
use folding_schemes::hypernova::{
    eval_mle, CCCSVar, CCSMatricesVar, DeciderHyperNovaGadget, LCCCSVar, WitnessVar,
};
use folding_schemes::gadgets::{MatrixGadget, SparseMatrixVar};
use folding_schemes::linalg::SparseMatrix;
use folding_schemes::nonnative::NonNativeAffineVar;
use folding_schemes::r1cs_var::{CsRef, FVar, TranscriptVar};
use folding_schemes::sum_check::{DensePolynomialVar, SumCheckVerifierGadget};
use folding_schemes::transcript::{poseidon_test_config, Transcript};

// Runs one step gadget against its expected next state and counts the
// constraints the wrapper adds: the step's own, plus one equality per
// state element.
fn step_constraint_count<FC: FCircuit>(fc: &FC, z_i: Vec<Fr>, z_i1: Vec<Fr>) -> usize {
    let cs = CsRef::new();
    let z_i_var = witness_vec(&cs, &z_i).unwrap();
    let computed = fc.generate_step_constraints(&cs, 0, &z_i_var, &Vec::new()).unwrap();
    let z_i1_var = witness_vec(&cs, &z_i1).unwrap();
    for k in 0..computed.len() {
        computed[k].enforce_equal(&z_i1_var[k]).unwrap();
    }
    assert!(cs.is_satisfied().unwrap());
    cs.num_constraints()
}

#[test]
fn test_testfcircuit() {
    let f_circuit = CubicFCircuit {};
    let n = step_constraint_count(
        &f_circuit,
        vec![Fr::from_u64(3)],
        vec![Fr::from_u64(35)],
    );
    assert_eq!(n, 3);
}

#[test]
fn test_customtestfcircuit() {
    let n_constraints = 1000;
    let custom_circuit = CustomFCircuit { n_constraints };
    let z_i = vec![Fr::from_u64(5)];
    let z_i1 = custom_circuit.step_native(0, &z_i, &Vec::new()).unwrap();
    let n = step_constraint_count(&custom_circuit, z_i, z_i1);
    assert_eq!(n, n_constraints);
}

#[test]
fn test_alloc_nonnativeaffinevar_zero() {
    let cs = CsRef::new();

    // dealing with the identity point should not fail
    let p = G1::zero();
    NonNativeAffineVar::new_witness(&cs, &p).unwrap();
}

#[test]
fn test_sum_check_gadget() {
    // two hand-built rounds that satisfy the sum-check invariants: the
    // second round polynomial is derived from the first round's
    // challenge, mirrored on a native transcript
    let cfg = poseidon_test_config();
    let mut native = Transcript::new(&cfg);

    let a = Fr::from_u64(3);
    let b = Fr::from_u64(4);
    // p1(X) = a + b X, claim = p1(0) + p1(1) = 2a + b
    let claim = a.add(&a).add(&b);
    native.absorb_vec(&vec![a, b]);
    let r1 = native.get_challenge();
    let p1_at_r1 = a.add(&b.mul(&r1));
    // p2(X) = c + d X with p2(0) + p2(1) = p1(r1): c = p1(r1), d = -p1(r1)
    let c = p1_at_r1;
    let d = p1_at_r1.neg();
    native.absorb_vec(&vec![c, d]);
    let r2 = native.get_challenge();
    let expected = c.add(&d.mul(&r2));

    let cs = CsRef::new();
    let mut transcript_var = TranscriptVar::new(&cs, &cfg);
    let p1 = DensePolynomialVar::new_witness(&cs, &vec![a, b]).unwrap();
    let p2 = DensePolynomialVar::new_witness(&cs, &vec![c, d]).unwrap();
    let claim_var = FVar::witness(&cs, &claim).unwrap();

    let (e_var, r_vars) =
        SumCheckVerifierGadget::verify_sumcheck(&vec![p1, p2], &claim_var, &mut transcript_var)
            .unwrap();

    assert_eq!(r_vars.len(), 2);
    assert!(r_vars[0].value().unwrap().equals(&r1));
    assert!(r_vars[1].value().unwrap().equals(&r2));
    assert!(e_var.value().unwrap().equals(&expected));
    assert!(cs.is_satisfied().unwrap());
}

#[test]
fn test_sum_check_gadget_rejects_bad_claim() {
    // a claim off by one leaves the recorded constraints unsatisfied
    let cfg = poseidon_test_config();
    let cs = CsRef::new();
    let mut transcript_var = TranscriptVar::new(&cs, &cfg);
    let a = Fr::from_u64(3);
    let b = Fr::from_u64(4);
    let bad_claim = a.add(&a).add(&b).add(&Fr::one());
    let p1 = DensePolynomialVar::new_witness(&cs, &vec![a, b]).unwrap();
    let claim_var = FVar::witness(&cs, &bad_claim).unwrap();
    SumCheckVerifierGadget::verify_sumcheck(&vec![p1], &claim_var, &mut transcript_var).unwrap();
    assert!(!cs.is_satisfied().unwrap());
}

#[test]
fn test_eval_mle_gadget() {
    // v = [1, 2, 3, 4] at r = (5, 7): the first round folds to
    // [1 + 5*(2-1), 3 + 5*(4-3)] = [6, 8], the second to 6 + 7*(8-6) = 20
    let cs = CsRef::new();
    let v = witness_vec(
        &cs,
        &vec![Fr::from_u64(1), Fr::from_u64(2), Fr::from_u64(3), Fr::from_u64(4)],
    )
    .unwrap();
    let r = witness_vec(&cs, &vec![Fr::from_u64(5), Fr::from_u64(7)]).unwrap();
    let e = eval_mle(&v, &r).unwrap();
    assert!(e.value().unwrap().equals(&Fr::from_u64(20)));
}

#[test]
fn test_lcccs_evaluation_gadget() {
    // the in-circuit claims of a linearized instance match a native
    // recomputation of the folded matrix-vector products
    let cs = CsRef::new();

    // a 4x3 matrix, z = (u, x, w) of length 3
    let m = SparseMatrix::new(
        4,
        3,
        vec![
            vec![(Fr::from_u64(1), 0usize), (Fr::from_u64(2), 2usize)],
            vec![(Fr::from_u64(3), 1usize)],
            vec![(Fr::from_u64(4), 0usize)],
            vec![(Fr::from_u64(5), 2usize)],
        ],
    )
    .unwrap();
    let u_val = Fr::from_u64(1);
    let x_val = Fr::from_u64(6);
    let w_val = Fr::from_u64(7);
    let z = vec![u_val, x_val, w_val];
    let mz = m.mul_vector(&z).unwrap();

    // native MLE fold of mz at (r0, r1)
    let r0 = Fr::from_u64(9);
    let r1 = Fr::from_u64(11);
    let f0 = mz[0].add(&r0.mul(&mz[1].sub(&mz[0])));
    let f1 = mz[2].add(&r0.mul(&mz[3].sub(&mz[2])));
    let expected = f0.add(&r1.mul(&f1.sub(&f0)));

    let m_var = SparseMatrixVar::new_constant(&m);
    let mats = CCSMatricesVar { M: vec![m_var] };
    let w_var = WitnessVar::new_witness(&cs, &vec![w_val], &Fr::zero()).unwrap();
    let c_var = NonNativeAffineVar::new_witness(&cs, &G1::zero()).unwrap();
    let u_var = LCCCSVar {
        C: c_var,
        u: FVar::witness(&cs, &u_val).unwrap(),
        x: witness_vec(&cs, &vec![x_val]).unwrap(),
        r_x: witness_vec(&cs, &vec![r0, r1]).unwrap(),
        v: witness_vec(&cs, &vec![Fr::zero()]).unwrap(),
    };
    let evals = mats.eval_relation(&w_var, &u_var).unwrap();
    assert_eq!(evals.len(), 1);
    assert!(evals[0].value().unwrap().equals(&expected));

    // a matrix-vector product through the gadget agrees with the native
    // one as well
    let m_var2 = SparseMatrixVar::new_constant(&m);
    let z_var = witness_vec(&cs, &z).unwrap();
    let mz_var = m_var2.mul_vector(&z_var).unwrap();
    for k in 0..4 {
        assert!(mz_var[k].value().unwrap().equals(&mz[k]));
    }
}

#[test]
fn test_hypernova_fold_gadget() {
    // one multifolding step: the transcript absorbs the parameter hash,
    // the sum-check round runs, rho is re-derived from the transcript
    // and enforced, and the scalars fold as u' = u + rho, x' = x + rho*x2,
    // v' = sigma + rho*theta
    let cfg = poseidon_test_config();
    let pp = Fr::from_u64(99);

    // mirror the in-circuit transcript natively to obtain the round
    // challenge and the derived rho
    let mut native = Transcript::new(&cfg);
    native.absorb(&pp);
    let a = Fr::from_u64(3);
    let b = Fr::from_u64(4);
    let claim = a.add(&a).add(&b);
    native.absorb_vec(&vec![a, b]);
    let r1 = native.get_challenge();
    let bits = native.get_challenge_nbits(128);
    let rho = folding_schemes::field::fr_from_le_bits(&bits);

    let u0 = Fr::from_u64(1);
    let x1 = Fr::from_u64(10);
    let x2 = Fr::from_u64(20);
    let sigma = Fr::from_u64(7);
    let theta = Fr::from_u64(9);

    let cs = CsRef::new();
    let mut transcript_var = TranscriptVar::new(&cs, &cfg);
    let pp_var = FVar::witness(&cs, &pp).unwrap();
    let p1 = DensePolynomialVar::new_witness(&cs, &vec![a, b]).unwrap();
    let claim_var = FVar::witness(&cs, &claim).unwrap();
    let rho_var = FVar::witness(&cs, &rho).unwrap();
    let big_u = LCCCSVar {
        C: NonNativeAffineVar::new_witness(&cs, &G1::zero()).unwrap(),
        u: FVar::witness(&cs, &u0).unwrap(),
        x: witness_vec(&cs, &vec![x1]).unwrap(),
        r_x: witness_vec(&cs, &vec![Fr::zero()]).unwrap(),
        v: witness_vec(&cs, &vec![sigma]).unwrap(),
    };
    let small_u = CCCSVar {
        C: NonNativeAffineVar::new_witness(&cs, &G1::zero()).unwrap(),
        x: witness_vec(&cs, &vec![x2]).unwrap(),
    };
    let sigmas = witness_vec(&cs, &vec![sigma]).unwrap();
    let thetas = witness_vec(&cs, &vec![theta]).unwrap();
    let folded_c = NonNativeAffineVar::new_witness(&cs, &G1::zero()).unwrap();

    let folded = DeciderHyperNovaGadget::fold_gadget(
        &mut transcript_var,
        &pp_var,
        &big_u,
        &small_u,
        &vec![p1],
        &claim_var,
        &rho_var,
        &sigmas,
        &thetas,
        folded_c,
    )
    .unwrap();

    assert!(folded.u.value().unwrap().equals(&u0.add(&rho)));
    assert!(folded.x[0].value().unwrap().equals(&x1.add(&rho.mul(&x2))));
    assert!(folded.v[0].value().unwrap().equals(&sigma.add(&rho.mul(&theta))));
    assert_eq!(folded.r_x.len(), 1);
    assert!(folded.r_x[0].value().unwrap().equals(&r1));
    // the enforced rho matches the transcript-derived one, so the
    // recorded constraints are satisfied
    assert!(cs.is_satisfied().unwrap());
}
