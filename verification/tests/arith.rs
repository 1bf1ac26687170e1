// Tests for the R1CS relation evaluation and the CCS conversion.

use folding_schemes::arith::R1CS;
use folding_schemes::field::Fr;
use folding_schemes::linalg::{is_zero_vec, SparseMatrix};
use folding_schemes::Error;

fn to_matrix(rows: Vec<Vec<u64>>, n_cols: usize) -> SparseMatrix {
    let n_rows = rows.len();
    let mut coeffs: Vec<Vec<(Fr, usize)>> = Vec::new();
    for row in rows {
        let mut entries: Vec<(Fr, usize)> = Vec::new();
        for (j, v) in row.into_iter().enumerate() {
            if v != 0 {
                entries.push((Fr::from_u64(v), j));
            }
        }
        coeffs.push(entries);
    }
    SparseMatrix::new(n_rows, n_cols, coeffs).unwrap()
}

// The R1CS for x^3 + x + 5 = y.
fn get_test_r1cs() -> R1CS {
    let a = to_matrix(
        vec![
            vec![0, 1, 0, 0, 0, 0],
            vec![0, 0, 0, 1, 0, 0],
            vec![0, 1, 0, 0, 1, 0],
            vec![5, 0, 0, 0, 0, 1],
        ],
        6,
    );
    let b = to_matrix(
        vec![
            vec![0, 1, 0, 0, 0, 0],
            vec![0, 1, 0, 0, 0, 0],
            vec![1, 0, 0, 0, 0, 0],
            vec![1, 0, 0, 0, 0, 0],
        ],
        6,
    );
    let c = to_matrix(
        vec![
            vec![0, 0, 0, 1, 0, 0],
            vec![0, 0, 0, 0, 1, 0],
            vec![0, 0, 0, 0, 0, 1],
            vec![0, 0, 1, 0, 0, 0],
        ],
        6,
    );
    R1CS { l: 1, A: a, B: b, C: c }
}

// z = (1, io, w) for the cubic relation at the given input.
fn get_test_z_split(input: u64) -> (Fr, Vec<Fr>, Vec<Fr>) {
    (
        Fr::one(),
        vec![Fr::from_u64(input)],
        vec![
            Fr::from_u64(input * input * input + input + 5),
            Fr::from_u64(input * input),
            Fr::from_u64(input * input * input),
            Fr::from_u64(input * input * input + input),
        ],
    )
}

#[test]
fn test_eval_r1cs_relation() {
    let r1cs = get_test_r1cs();
    let (_, x, mut w) = get_test_z_split(42);

    let f_w = r1cs.eval_relation(&w, &x).unwrap();
    assert!(is_zero_vec(&f_w));

    w[1] = Fr::from_u64(111);
    let f_w = r1cs.eval_relation(&w, &x).unwrap();
    assert!(!is_zero_vec(&f_w));
}

#[test]
fn test_check_r1cs_relation() {
    let r1cs = get_test_r1cs();
    let (_, x, w) = get_test_z_split(5);
    r1cs.check_relation(&w, &x).unwrap();
}

#[test]
fn test_check_r1cs_relation_rejects() {
    let r1cs = get_test_r1cs();
    let (_, x, mut w) = get_test_z_split(5);
    w[0] = Fr::from_u64(7);
    let res = r1cs.check_relation(&w, &x);
    assert!(matches!(res, Err(Error::NotSatisfied)));
}

#[test]
fn test_eval_rejects_wrong_length() {
    let r1cs = get_test_r1cs();
    let (_, x, mut w) = get_test_z_split(5);
    w.push(Fr::zero());
    let res = r1cs.eval_relation(&w, &x);
    assert!(matches!(res, Err(Error::ShapeMismatch(_))));
}

#[test]
fn test_r1cs_ccs_round_trip() {
    let r1cs = get_test_r1cs();
    let (_, x, w) = get_test_z_split(3);
    let l = r1cs.l;
    let rows = r1cs.num_constraints();
    let cols = r1cs.num_variables();

    let ccs = r1cs.to_ccs();
    assert_eq!(ccs.t, 3);
    assert_eq!(ccs.q, 2);
    assert_eq!(ccs.m, rows);
    assert_eq!(ccs.n, cols);

    let back = R1CS::from_ccs(ccs).unwrap();
    assert_eq!(back.l, l);
    assert_eq!(back.num_constraints(), rows);
    assert_eq!(back.num_variables(), cols);
    // the relation carried over unchanged
    back.check_relation(&w, &x).unwrap();
}

#[test]
fn test_split_z() {
    let r1cs = get_test_r1cs();
    let (u, x, w) = get_test_z_split(5);
    let mut z = vec![u];
    z.extend(x.iter().copied());
    z.extend(w.iter().copied());
    let (w2, x2) = r1cs.split_z(&z);
    assert_eq!(w2.len(), w.len());
    assert_eq!(x2.len(), x.len());
    assert!(x2[0].equals(&x[0]));
    assert!(w2[0].equals(&w[0]));
}
