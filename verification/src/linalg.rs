//! Sparse linear algebra over the scalar field: vector addition,
//! subtraction, scaling and Hadamard product, and sparse matrix times
//! vector.  These are the kernels under every relation check and every
//! folding step.

use vstd::prelude::*;

use crate::field::{fr_nat, p_add, p_mul, p_sub, Fr};
use crate::Error;

verus! {

/// The integer representatives of a vector of field elements.
pub open spec fn vals(s: Seq<Fr>) -> Seq<nat> {
    s.map_values(|x: Fr| fr_nat(x))
}

/// Pointwise modular sum of two equally long vectors.
pub open spec fn vadd(a: Seq<nat>, b: Seq<nat>) -> Seq<nat> {
    Seq::new(a.len(), |i: int| p_add(a[i], b[i]))
}

/// Pointwise modular difference of two equally long vectors.
pub open spec fn vsub(a: Seq<nat>, b: Seq<nat>) -> Seq<nat> {
    Seq::new(a.len(), |i: int| p_sub(a[i], b[i]))
}

/// A vector scaled by a constant, modularly.
pub open spec fn vscale(c: nat, a: Seq<nat>) -> Seq<nat> {
    Seq::new(a.len(), |i: int| p_mul(c, a[i]))
}

/// Pointwise modular product of two equally long vectors.
pub open spec fn vhadamard(a: Seq<nat>, b: Seq<nat>) -> Seq<nat> {
    Seq::new(a.len(), |i: int| p_mul(a[i], b[i]))
}

/// Whether every entry of a vector is zero.
pub open spec fn is_zero_seq(a: Seq<nat>) -> bool {
    forall|i: int| 0 <= i < a.len() ==> a[i] == 0
}

/// Adds two vectors entry by entry; the lengths must agree.
pub fn vec_add(a: &Vec<Fr>, b: &Vec<Fr>) -> (r: Result<Vec<Fr>, Error>)
    ensures
        a@.len() == b@.len() <==> r is Ok,
        r matches Ok(v) ==> vals(v@) == vadd(vals(a@), vals(b@)),
        r matches Err(e) ==> e is ShapeMismatch,
{
    if a.len() != b.len() {
        return Err(Error::ShapeMismatch("vector sum of different lengths".to_string()));
    }
    let mut out: Vec<Fr> = Vec::new();
    for i in 0..a.len()
        invariant
            a@.len() == b@.len(),
            out@.len() == i,
            forall|j: int| 0 <= j < i ==> fr_nat(out@[j]) == p_add(fr_nat(a@[j]), fr_nat(b@[j])),
    {
        out.push(a[i].add(&b[i]));
    }
    proof {
        assert(vals(out@) =~= vadd(vals(a@), vals(b@)));
    }
    Ok(out)
}

/// Subtracts two vectors entry by entry; the lengths must agree.
pub fn vec_sub(a: &Vec<Fr>, b: &Vec<Fr>) -> (r: Result<Vec<Fr>, Error>)
    ensures
        a@.len() == b@.len() <==> r is Ok,
        r matches Ok(v) ==> vals(v@) == vsub(vals(a@), vals(b@)),
        r matches Err(e) ==> e is ShapeMismatch,
{
    if a.len() != b.len() {
        return Err(Error::ShapeMismatch("vector difference of different lengths".to_string()));
    }
    let mut out: Vec<Fr> = Vec::new();
    for i in 0..a.len()
        invariant
            a@.len() == b@.len(),
            out@.len() == i,
            forall|j: int| 0 <= j < i ==> fr_nat(out@[j]) == p_sub(fr_nat(a@[j]), fr_nat(b@[j])),
    {
        out.push(a[i].sub(&b[i]));
    }
    proof {
        assert(vals(out@) =~= vsub(vals(a@), vals(b@)));
    }
    Ok(out)
}

/// Scales a vector by a constant.
pub fn vec_scalar_mul(a: &Vec<Fr>, c: &Fr) -> (r: Vec<Fr>)
    ensures
        vals(r@) == vscale(fr_nat(*c), vals(a@)),
{
    let mut out: Vec<Fr> = Vec::new();
    for i in 0..a.len()
        invariant
            out@.len() == i,
            forall|j: int| 0 <= j < i ==> fr_nat(out@[j]) == p_mul(fr_nat(*c), fr_nat(a@[j])),
    {
        out.push(c.mul(&a[i]));
    }
    proof {
        assert(vals(out@) =~= vscale(fr_nat(*c), vals(a@)));
    }
    out
}

/// Multiplies two vectors entry by entry; the lengths must agree.
pub fn hadamard(a: &Vec<Fr>, b: &Vec<Fr>) -> (r: Result<Vec<Fr>, Error>)
    ensures
        a@.len() == b@.len() <==> r is Ok,
        r matches Ok(v) ==> vals(v@) == vhadamard(vals(a@), vals(b@)),
        r matches Err(e) ==> e is ShapeMismatch,
{
    if a.len() != b.len() {
        return Err(Error::ShapeMismatch("hadamard product of different lengths".to_string()));
    }
    let mut out: Vec<Fr> = Vec::new();
    for i in 0..a.len()
        invariant
            a@.len() == b@.len(),
            out@.len() == i,
            forall|j: int| 0 <= j < i ==> fr_nat(out@[j]) == p_mul(fr_nat(a@[j]), fr_nat(b@[j])),
    {
        out.push(a[i].mul(&b[i]));
    }
    proof {
        assert(vals(out@) =~= vhadamard(vals(a@), vals(b@)));
    }
    Ok(out)
}

/// Tests whether every entry of a vector is zero.
pub fn is_zero_vec(a: &Vec<Fr>) -> (r: bool)
    ensures
        r <==> is_zero_seq(vals(a@)),
{
    for i in 0..a.len()
        invariant
            forall|j: int| 0 <= j < i ==> fr_nat(a@[j]) == 0,
    {
        if !a[i].is_zero() {
            proof {
                assert(vals(a@)[i as int] != 0);
            }
            return false;
        }
    }
    true
}

/// Compares two vectors entry by entry on their representatives.
pub fn vec_eq(a: &Vec<Fr>, b: &Vec<Fr>) -> (r: bool)
    ensures
        r <==> vals(a@) == vals(b@),
{
    if a.len() != b.len() {
        proof {
            assert(vals(a@).len() != vals(b@).len());
        }
        return false;
    }
    for i in 0..a.len()
        invariant
            a@.len() == b@.len(),
            forall|j: int| 0 <= j < i ==> fr_nat(a@[j]) == fr_nat(b@[j]),
    {
        if !a[i].equals(&b[i]) {
            proof {
                assert(vals(a@)[i as int] != vals(b@)[i as int]);
            }
            return false;
        }
    }
    proof {
        assert(vals(a@) =~= vals(b@));
    }
    true
}

/// A vector of zeros of the given length.
pub fn zero_vec(n: usize) -> (r: Vec<Fr>)
    ensures
        r@.len() == n,
        forall|j: int| 0 <= j < n ==> fr_nat(#[trigger] r@[j]) == 0,
{
    let mut out: Vec<Fr> = Vec::new();
    for i in 0..n
        invariant
            out@.len() == i,
            forall|j: int| 0 <= j < i ==> fr_nat(#[trigger] out@[j]) == 0,
    {
        out.push(Fr::zero());
    }
    out
}

/// Copies a vector of field elements.
pub fn copy_fr_vec(v: &Vec<Fr>) -> (r: Vec<Fr>)
    ensures
        r@ == v@,
{
    let mut out: Vec<Fr> = Vec::new();
    for i in 0..v.len()
        invariant
            out@ =~= v@.take(i as int),
    {
        out.push(v[i]);
    }
    proof {
        assert(out@ =~= v@);
    }
    out
}

/// Appends the entries of `src` to `dst`.
pub fn append_fr_vec(dst: &mut Vec<Fr>, src: &Vec<Fr>)
    ensures
        final(dst)@ == old(dst)@ + src@,
{
    for i in 0..src.len()
        invariant
            dst@ =~= old(dst)@ + src@.take(i as int),
    {
        dst.push(src[i]);
    }
    proof {
        assert(dst@ =~= old(dst)@ + src@);
    }
}

/// A sparse matrix over the scalar field: a row-major list of
/// (value, column) pairs.  The invariant `wf` asks that every column index
/// is below `n_cols` and that there is one entry list per row.
pub struct SparseMatrix {
    /// Number of rows.
    pub n_rows: usize,
    /// Number of columns.
    pub n_cols: usize,
    /// For each row, its non-zero entries as (value, column index).
    pub coeffs: Vec<Vec<(Fr, usize)>>,
}

/// The mathematical reading of one sparse row: (representative, column).
pub open spec fn row_model(row: Seq<(Fr, usize)>) -> Seq<(nat, int)> {
    row.map_values(|e: (Fr, usize)| (fr_nat(e.0), e.1 as int))
}

/// The dot product of a sparse row with a dense vector of representatives,
/// accumulated left to right.
pub open spec fn row_dot(row: Seq<(nat, int)>, z: Seq<nat>) -> nat
    decreases row.len(),
{
    if row.len() == 0 {
        0
    } else {
        p_add(row_dot(row.drop_last(), z), p_mul(row.last().0, z[row.last().1]))
    }
}

/// The product of a sparse matrix with a dense vector, row by row.
pub open spec fn mat_vec(m: Seq<Seq<(nat, int)>>, z: Seq<nat>) -> Seq<nat> {
    Seq::new(m.len(), |i: int| row_dot(m[i], z))
}

impl SparseMatrix {
    /// The mathematical reading of the matrix: rows of (value, column).
    pub open spec fn rows(&self) -> Seq<Seq<(nat, int)>> {
        self.coeffs@.map_values(|row: Vec<(Fr, usize)>| row_model(row@))
    }

    /// Well-formedness: one entry list per row, every column in range.
    pub open spec fn wf(&self) -> bool {
        &&& self.coeffs@.len() == self.n_rows
        &&& forall|i: int, j: int|
            0 <= i < self.coeffs@.len() && 0 <= j < self.coeffs@[i]@.len()
                ==> (#[trigger] self.coeffs@[i]@[j]).1 < self.n_cols
    }

    /// The empty matrix.
    pub fn empty() -> (r: SparseMatrix)
        ensures
            r.wf(),
            r.n_rows == 0,
            r.n_cols == 0,
            r.rows() == Seq::<Seq<(nat, int)>>::empty(),
    {
        let r = SparseMatrix { n_rows: 0, n_cols: 0, coeffs: Vec::new() };
        proof {
            assert(r.rows() =~= Seq::<Seq<(nat, int)>>::empty());
        }
        r
    }

    /// Builds a sparse matrix after checking the row count and the column
    /// bounds; rejects malformed input with `ShapeMismatch`.
    pub fn new(n_rows: usize, n_cols: usize, coeffs: Vec<Vec<(Fr, usize)>>) -> (r: Result<
        SparseMatrix,
        Error,
    >)
        ensures
            r matches Ok(m) ==> {
                &&& m.wf()
                &&& m.n_rows == n_rows
                &&& m.n_cols == n_cols
                &&& m.coeffs@ == coeffs@
            },
            r matches Err(e) ==> e is ShapeMismatch,
    {
        if coeffs.len() != n_rows {
            return Err(Error::ShapeMismatch("row count does not match".to_string()));
        }
        for i in 0..coeffs.len()
            invariant
                forall|a: int, b: int|
                    0 <= a < i && 0 <= b < coeffs@[a]@.len()
                        ==> (#[trigger] coeffs@[a]@[b]).1 < n_cols,
        {
            let row = &coeffs[i];
            for j in 0..row.len()
                invariant
                    row == &coeffs@[i as int],
                    i < coeffs@.len(),
                    forall|a: int, b: int|
                        0 <= a < i && 0 <= b < coeffs@[a]@.len()
                            ==> (#[trigger] coeffs@[a]@[b]).1 < n_cols,
                    forall|b: int| 0 <= b < j ==> (#[trigger] row@[b]).1 < n_cols,
            {
                if row[j].1 >= n_cols {
                    return Err(Error::ShapeMismatch("column index out of range".to_string()));
                }
            }
        }
        Ok(SparseMatrix { n_rows, n_cols, coeffs })
    }

    /// Multiplies the matrix by a dense vector; the vector length must
    /// equal the number of columns.
    pub fn mul_vector(&self, z: &Vec<Fr>) -> (r: Result<Vec<Fr>, Error>)
        requires
            self.wf(),
        ensures
            z@.len() == self.n_cols <==> r is Ok,
            r matches Ok(v) ==> vals(v@) == mat_vec(self.rows(), vals(z@)),
            r matches Err(e) ==> e is ShapeMismatch,
    {
        if z.len() != self.n_cols {
            return Err(Error::ShapeMismatch("vector length does not match columns".to_string()));
        }
        let mut out: Vec<Fr> = Vec::new();
        for i in 0..self.coeffs.len()
            invariant
                self.wf(),
                z@.len() == self.n_cols,
                out@.len() == i,
                forall|a: int|
                    0 <= a < i ==> fr_nat(#[trigger] out@[a]) == row_dot(
                        self.rows()[a],
                        vals(z@),
                    ),
        {
            let row = &self.coeffs[i];
            let mut acc = Fr::zero();
            for j in 0..row.len()
                invariant
                    self.wf(),
                    z@.len() == self.n_cols,
                    row == &self.coeffs@[i as int],
                    i < self.coeffs@.len(),
                    fr_nat(acc) == row_dot(row_model(row@).take(j as int), vals(z@)),
            {
                proof {
                    assert(row@[j as int].1 < self.n_cols);
                    assert(row_model(row@).take(j + 1).drop_last() =~= row_model(row@).take(
                        j as int,
                    ));
                }
                let term = row[j].0.mul(&z[row[j].1]);
                acc = acc.add(&term);
            }
            proof {
                assert(row_model(row@).take(row@.len() as int) =~= row_model(row@));
            }
            out.push(acc);
        }
        proof {
            assert(vals(out@) =~= mat_vec(self.rows(), vals(z@)));
        }
        Ok(out)
    }
}

} // verus!
