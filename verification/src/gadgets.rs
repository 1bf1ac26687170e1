//! In-circuit linear algebra: vector addition, scaling and Hadamard
//! product over circuit variables, and a sparse-matrix gadget whose
//! entries are circuit constants.  Each gadget's contract says that the
//! values it computes are the same modular functions of its operands'
//! values that the native linear algebra computes, through the same spec
//! functions.

use vstd::prelude::*;

use crate::field::p_add;
use crate::linalg::{mat_vec, row_dot, row_model, vadd, vhadamard, vscale, SparseMatrix};
use crate::r1cs_var::{fv, fvals, FVar};
use crate::Error;

verus! {

/// Vector operations over circuit variables.
pub trait VectorGadget {
    /// The values assigned to the vector's entries.
    spec fn vg_vals(&self) -> Seq<nat>;

    /// Pointwise sum; the lengths must agree.
    fn add(&self, other: &Self) -> (r: Result<Vec<FVar>, Error>)
        ensures
            self.vg_vals().len() == other.vg_vals().len() <==> r is Ok,
            r matches Ok(v) ==> fvals(v@) == vadd(self.vg_vals(), other.vg_vals()),
            r matches Err(e) ==> e is ShapeMismatch,
    ;

    /// The vector scaled by one variable.
    fn mul_scalar(&self, c: &FVar) -> (r: Vec<FVar>)
        ensures
            fvals(r@) == vscale(fv(*c), self.vg_vals()),
    ;

    /// Pointwise product; the lengths must agree.
    fn hadamard(&self, other: &Self) -> (r: Result<Vec<FVar>, Error>)
        ensures
            self.vg_vals().len() == other.vg_vals().len() <==> r is Ok,
            r matches Ok(v) ==> fvals(v@) == vhadamard(self.vg_vals(), other.vg_vals()),
            r matches Err(e) ==> e is ShapeMismatch,
    ;
}

impl VectorGadget for Vec<FVar> {
    open spec fn vg_vals(&self) -> Seq<nat> {
        fvals(self@)
    }

    fn add(&self, other: &Self) -> (r: Result<Vec<FVar>, Error>) {
        if self.len() != other.len() {
            return Err(Error::ShapeMismatch("vector sum of different lengths".to_string()));
        }
        let mut out: Vec<FVar> = Vec::new();
        for i in 0..self.len()
            invariant
                self@.len() == other@.len(),
                out@.len() == i,
                forall|j: int|
                    0 <= j < i ==> fv(#[trigger] out@[j]) == p_add(fv(self@[j]), fv(other@[j])),
        {
            out.push(self[i].add(&other[i]));
        }
        proof {
            assert(fvals(out@) =~= vadd(fvals(self@), fvals(other@)));
        }
        Ok(out)
    }

    fn mul_scalar(&self, c: &FVar) -> (r: Vec<FVar>) {
        let mut out: Vec<FVar> = Vec::new();
        for i in 0..self.len()
            invariant
                out@.len() == i,
                forall|j: int|
                    0 <= j < i ==> fv(#[trigger] out@[j]) == crate::field::p_mul(
                        fv(*c),
                        fv(self@[j]),
                    ),
        {
            out.push(c.mul(&self[i]));
        }
        proof {
            assert(fvals(out@) =~= vscale(fv(*c), fvals(self@)));
        }
        out
    }

    fn hadamard(&self, other: &Self) -> (r: Result<Vec<FVar>, Error>) {
        if self.len() != other.len() {
            return Err(Error::ShapeMismatch("hadamard product of different lengths".to_string()));
        }
        let mut out: Vec<FVar> = Vec::new();
        for i in 0..self.len()
            invariant
                self@.len() == other@.len(),
                out@.len() == i,
                forall|j: int|
                    0 <= j < i ==> fv(#[trigger] out@[j]) == crate::field::p_mul(
                        fv(self@[j]),
                        fv(other@[j]),
                    ),
        {
            out.push(self[i].mul(&other[i]));
        }
        proof {
            assert(fvals(out@) =~= vhadamard(fvals(self@), fvals(other@)));
        }
        Ok(out)
    }
}

/// A sparse matrix whose entries are circuit variables, in the same
/// row-major (value, column) format as the native matrix.
pub struct SparseMatrixVar {
    /// Number of rows.
    pub n_rows: usize,
    /// Number of columns.
    pub n_cols: usize,
    /// For each row, its entries as (variable, column index).
    pub coeffs: Vec<Vec<(FVar, usize)>>,
}

/// Matrix-vector multiplication over circuit variables.
pub trait MatrixGadget {
    /// Well-formedness of the matrix.
    spec fn mg_wf(&self) -> bool;

    /// The mathematical reading of the matrix.
    spec fn mg_rows(&self) -> Seq<Seq<(nat, int)>>;

    /// The number of columns.
    spec fn mg_cols(&self) -> int;

    /// The product of the matrix with a vector of variables.
    fn mul_vector(&self, v: &Vec<FVar>) -> (r: Result<Vec<FVar>, Error>)
        requires
            self.mg_wf(),
        ensures
            v@.len() == self.mg_cols() <==> r is Ok,
            r matches Ok(out) ==> fvals(out@) == mat_vec(self.mg_rows(), fvals(v@)),
            r matches Err(e) ==> e is ShapeMismatch,
    ;
}

impl SparseMatrixVar {
    /// The mathematical reading of the matrix: rows of (value, column).
    pub open spec fn rows(&self) -> Seq<Seq<(nat, int)>> {
        self.coeffs@.map_values(
            |row: Vec<(FVar, usize)>|
                row@.map_values(|e: (FVar, usize)| (fv(e.0), e.1 as int)),
        )
    }

    /// Well-formedness: one entry list per row, every column in range.
    pub open spec fn wf(&self) -> bool {
        &&& self.coeffs@.len() == self.n_rows
        &&& forall|i: int, j: int|
            0 <= i < self.coeffs@.len() && 0 <= j < self.coeffs@[i]@.len()
                ==> (#[trigger] self.coeffs@[i]@[j]).1 < self.n_cols
    }

    /// Mirrors a native sparse matrix into the circuit as constants: the
    /// values of the variable entries are the native entries.
    pub fn new_constant(m: &SparseMatrix) -> (r: SparseMatrixVar)
        requires
            m.wf(),
        ensures
            r.wf(),
            r.n_rows == m.n_rows,
            r.n_cols == m.n_cols,
            r.rows() == m.rows(),
    {
        let mut coeffs: Vec<Vec<(FVar, usize)>> = Vec::new();
        for i in 0..m.coeffs.len()
            invariant
                m.wf(),
                coeffs@.len() == i,
                forall|a: int, b: int|
                    0 <= a < i && 0 <= b < coeffs@[a]@.len() ==> (#[trigger] coeffs@[a]@[b]).1
                        < m.n_cols,
                forall|a: int|
                    0 <= a < i ==> (#[trigger] coeffs@[a])@.map_values(
                        |e: (FVar, usize)| (fv(e.0), e.1 as int),
                    ) == row_model(m.coeffs@[a]@),
        {
            let row = &m.coeffs[i];
            let mut row_var: Vec<(FVar, usize)> = Vec::new();
            for j in 0..row.len()
                invariant
                    m.wf(),
                    row == &m.coeffs@[i as int],
                    i < m.coeffs@.len(),
                    row_var@.len() == j,
                    forall|b: int| 0 <= b < j ==> (#[trigger] row_var@[b]).1 < m.n_cols,
                    forall|b: int|
                        0 <= b < j ==> (fv((#[trigger] row_var@[b]).0), row_var@[b].1 as int)
                            == (crate::field::fr_nat(row@[b].0), row@[b].1 as int),
            {
                proof {
                    assert(row@[j as int].1 < m.n_cols);
                }
                row_var.push((FVar::constant(&row[j].0), row[j].1));
            }
            proof {
                assert(row_var@.map_values(|e: (FVar, usize)| (fv(e.0), e.1 as int)) =~= row_model(
                    row@,
                ));
            }
            coeffs.push(row_var);
        }
        let r = SparseMatrixVar { n_rows: m.n_rows, n_cols: m.n_cols, coeffs };
        proof {
            assert(r.rows() =~= m.rows());
        }
        r
    }
}

impl MatrixGadget for SparseMatrixVar {
    open spec fn mg_wf(&self) -> bool {
        self.wf()
    }

    open spec fn mg_rows(&self) -> Seq<Seq<(nat, int)>> {
        self.rows()
    }

    open spec fn mg_cols(&self) -> int {
        self.n_cols as int
    }

    fn mul_vector(&self, v: &Vec<FVar>) -> (r: Result<Vec<FVar>, Error>) {
        if v.len() != self.n_cols {
            return Err(Error::ShapeMismatch("vector length does not match columns".to_string()));
        }
        let zero = crate::field::Fr::zero();
        let mut out: Vec<FVar> = Vec::new();
        for i in 0..self.coeffs.len()
            invariant
                self.wf(),
                v@.len() == self.n_cols,
                crate::field::fr_nat(zero) == 0,
                out@.len() == i,
                forall|a: int|
                    0 <= a < i ==> fv(#[trigger] out@[a]) == row_dot(self.rows()[a], fvals(v@)),
        {
            let row = &self.coeffs[i];
            let mut acc = FVar::constant(&zero);
            let ghost rmodel = self.rows()[i as int];
            proof {
                assert(rmodel == row@.map_values(|e: (FVar, usize)| (fv(e.0), e.1 as int)));
                assert(rmodel.take(0) =~= Seq::<(nat, int)>::empty());
            }
            for j in 0..row.len()
                invariant
                    self.wf(),
                    v@.len() == self.n_cols,
                    row == &self.coeffs@[i as int],
                    i < self.coeffs@.len(),
                    rmodel == row@.map_values(|e: (FVar, usize)| (fv(e.0), e.1 as int)),
                    fv(acc) == row_dot(rmodel.take(j as int), fvals(v@)),
            {
                proof {
                    assert(row@[j as int].1 < self.n_cols);
                    assert(rmodel.take(j + 1).drop_last() =~= rmodel.take(j as int));
                }
                let term = row[j].0.mul(&v[row[j].1]);
                acc = acc.add(&term);
            }
            proof {
                assert(rmodel.take(row@.len() as int) =~= rmodel);
            }
            out.push(acc);
        }
        proof {
            assert(fvals(out@) =~= mat_vec(self.rows(), fvals(v@)));
        }
        Ok(out)
    }
}

} // verus!
