//! Arithmetization: rank-1 constraint systems (R1CS) and their customizable
//! generalization (CCS), with relation evaluation over the variable vector
//! z = (u, x, w) and the conversion between the two shapes.

use vstd::prelude::*;

use crate::field::{fr_nat, fr_order, p_neg, Fr};
use crate::linalg::{
    hadamard, is_zero_seq, is_zero_vec, mat_vec, vals, vec_scalar_mul, vec_sub, vhadamard, vscale,
    vsub, SparseMatrix,
};
use crate::rng::{fr_rand, Rng};
use crate::Error;

verus! {

/// A rank-1 constraint system: matrices A, B, C of equal dimensions and the
/// number l of public inputs.  The variable vector is z = (u, x, w) with
/// z[0] = u (1 for a plain instance); the relation is
/// (Az) ∘ (Bz) − u·(Cz) = 0.
pub struct R1CS {
    /// Number of public inputs.
    pub l: usize,
    /// Left matrix.
    pub A: SparseMatrix,
    /// Right matrix.
    pub B: SparseMatrix,
    /// Output matrix.
    pub C: SparseMatrix,
}

/// The variable vector (u, x, w) read as representatives, with u = 1.
pub open spec fn z_model(x: Seq<nat>, w: Seq<nat>) -> Seq<nat> {
    seq![1nat] + x + w
}

impl R1CS {
    /// Well-formedness: the three matrices share their dimensions, are
    /// themselves well formed, and the public inputs fit in the columns.
    pub open spec fn wf(&self) -> bool {
        &&& self.A.wf()
        &&& self.B.wf()
        &&& self.C.wf()
        &&& self.B.n_rows == self.A.n_rows
        &&& self.C.n_rows == self.A.n_rows
        &&& self.B.n_cols == self.A.n_cols
        &&& self.C.n_cols == self.A.n_cols
    }

    /// The residual of the relation at a full variable vector z:
    /// (Az) ∘ (Bz) − z[0]·(Cz), entry by entry.
    pub open spec fn eval_model(&self, z: Seq<nat>) -> Seq<nat> {
        vsub(
            vhadamard(mat_vec(self.A.rows(), z), mat_vec(self.B.rows(), z)),
            vscale(z[0], mat_vec(self.C.rows(), z)),
        )
    }

    /// Evaluates the relation residual at a given variable vector `z`,
    /// whose length must match the number of columns.  The first entry
    /// z[0] is used as the scalar u, so the same method serves the plain
    /// and the relaxed relation.
    pub fn eval_at_z(&self, z: &Vec<Fr>) -> (r: Result<Vec<Fr>, Error>)
        requires
            self.wf(),
        ensures
            (z@.len() == self.A.n_cols && z@.len() >= 1) <==> r is Ok,
            r matches Ok(v) ==> vals(v@) == self.eval_model(vals(z@)),
            r matches Err(e) ==> e is ShapeMismatch,
    {
        if z.len() != self.A.n_cols || z.len() == 0 {
            return Err(Error::ShapeMismatch("z length does not match the columns".to_string()));
        }
        let az = self.A.mul_vector(z).unwrap();
        let bz = self.B.mul_vector(z).unwrap();
        let cz = self.C.mul_vector(z).unwrap();
        let ucz = vec_scalar_mul(&cz, &z[0]);
        proof {
            assert(az@.len() == vals(az@).len());
            assert(bz@.len() == vals(bz@).len());
            assert(cz@.len() == vals(cz@).len());
            assert(az@.len() == self.A.rows().len() && bz@.len() == self.B.rows().len()
                && cz@.len() == self.C.rows().len());
            assert(ucz@.len() == vals(ucz@).len());
            assert(ucz@.len() == cz@.len());
        }
        let azbz = hadamard(&az, &bz).unwrap();
        proof {
            assert(azbz@.len() == vals(azbz@).len());
            assert(azbz@.len() == az@.len());
        }
        let r = vec_sub(&azbz, &ucz).unwrap();
        proof {
            assert(vals(r@) =~= self.eval_model(vals(z@)));
        }
        Ok(r)
    }

    /// Evaluates the plain relation at public inputs `x` and witness `w`,
    /// with u fixed to 1.
    pub fn eval_relation(&self, w: &Vec<Fr>, x: &Vec<Fr>) -> (r: Result<Vec<Fr>, Error>)
        requires
            self.wf(),
        ensures
            1 + x@.len() + w@.len() == self.A.n_cols <==> r is Ok,
            r matches Ok(v) ==> vals(v@) == self.eval_model(z_model(vals(x@), vals(w@))),
            r matches Err(e) ==> e is ShapeMismatch,
    {
        let mut z: Vec<Fr> = Vec::new();
        z.push(Fr::one());
        for i in 0..x.len()
            invariant
                z@.len() == 1 + i,
            z@ =~= seq![z@[0]] + x@.take(i as int),
                fr_nat(z@[0]) == 1,
        {
            z.push(x[i]);
        }
        for i in 0..w.len()
            invariant
                z@.len() == 1 + x@.len() + i,
                z@ =~= seq![z@[0]] + x@ + w@.take(i as int),
                fr_nat(z@[0]) == 1,
        {
            z.push(w[i]);
        }
        proof {
            assert(z@ =~= seq![z@[0]] + x@ + w@);
            assert(vals(z@) =~= z_model(vals(x@), vals(w@)));
        }
        self.eval_at_z(&z)
    }

    /// Accepts an evaluation exactly when it is the zero vector.
    pub fn check_evaluation(e: &Vec<Fr>) -> (r: Result<(), Error>)
        ensures
            r is Ok <==> is_zero_seq(vals(e@)),
            r matches Err(err) ==> err is NotSatisfied,
    {
        if is_zero_vec(e) {
            Ok(())
        } else {
            Err(Error::NotSatisfied)
        }
    }

    /// Checks the plain relation at (w, x): evaluates the residual and
    /// accepts exactly when it is zero.
    pub fn check_relation(&self, w: &Vec<Fr>, x: &Vec<Fr>) -> (r: Result<(), Error>)
        requires
            self.wf(),
        ensures
            r is Ok <==> (1 + x@.len() + w@.len() == self.A.n_cols && is_zero_seq(
                self.eval_model(z_model(vals(x@), vals(w@))),
            )),
    {
        let e = match self.eval_relation(w, x) {
            Ok(e) => e,
            Err(err) => {
                return Err(err);
            },
        };
        Self::check_evaluation(&e)
    }

    /// The empty system.
    pub fn empty() -> (r: R1CS)
        ensures
            r.wf(),
            r.l == 0,
            r.A.n_rows == 0,
            r.A.n_cols == 0,
    {
        R1CS {
            l: 0,
            A: SparseMatrix::empty(),
            B: SparseMatrix::empty(),
            C: SparseMatrix::empty(),
        }
    }

    /// A random system of the given dimensions with one public input,
    /// stored densely; the entries themselves are unspecified.
    pub fn rand(rng: &mut Rng, n_rows: usize, n_cols: usize) -> (r: Result<R1CS, Error>)
        ensures
            r matches Ok(s) ==> {
                &&& s.wf()
                &&& s.l == 1
                &&& s.A.n_rows == n_rows
                &&& s.A.n_cols == n_cols
            },
            n_cols >= 2 <==> r is Ok,
    {
        if n_cols < 2 {
            return Err(Error::ShapeMismatch("need at least two columns".to_string()));
        }
        let a = rand_matrix(rng, n_rows, n_cols);
        let b = rand_matrix(rng, n_rows, n_cols);
        let c = rand_matrix(rng, n_rows, n_cols);
        Ok(R1CS { l: 1, A: a, B: b, C: c })
    }

    /// Number of constraints.
    pub fn num_constraints(&self) -> (r: usize)
        ensures
            r == self.A.n_rows,
    {
        self.A.n_rows
    }

    /// Number of public inputs.
    pub fn num_public_inputs(&self) -> (r: usize)
        ensures
            r == self.l,
    {
        self.l
    }

    /// Total number of variables.
    pub fn num_variables(&self) -> (r: usize)
        ensures
            r == self.A.n_cols,
    {
        self.A.n_cols
    }

    /// Number of witness variables.
    pub fn num_witnesses(&self) -> (r: usize)
        requires
            self.l + 1 <= self.A.n_cols,
        ensures
            r == self.A.n_cols - self.l - 1,
    {
        self.A.n_cols - self.l - 1
    }

    /// The parameters of the relation as little-endian bytes: the
    /// public-input count, then the two dimensions.
    pub fn params_to_le_bytes(&self) -> (r: Vec<u8>)
        ensures
            r@ == crate::codec::u64_bytes(self.l as nat) + crate::codec::u64_bytes(
                self.A.n_rows as nat,
            ) + crate::codec::u64_bytes(self.A.n_cols as nat),
    {
        let mut out: Vec<u8> = Vec::new();
        crate::codec::write_u64(&mut out, self.l as u64);
        crate::codec::write_u64(&mut out, self.A.n_rows as u64);
        crate::codec::write_u64(&mut out, self.A.n_cols as u64);
        proof {
            assert(out@ =~= crate::codec::u64_bytes(self.l as nat) + crate::codec::u64_bytes(
                self.A.n_rows as nat,
            ) + crate::codec::u64_bytes(self.A.n_cols as nat));
        }
        out
    }

    /// Splits a full variable vector into (witness, public inputs),
    /// dropping the leading constant.
    pub fn split_z(&self, z: &Vec<Fr>) -> (r: (Vec<Fr>, Vec<Fr>))
        requires
            z@.len() >= self.l + 1,
        ensures
            r.0@ == z@.subrange(self.l + 1, z@.len() as int),
            r.1@ == z@.subrange(1, self.l + 1),
    {
        let n = z.len();
        let mut w: Vec<Fr> = Vec::new();
        let mut x: Vec<Fr> = Vec::new();
        for i in 0..self.l
            invariant
                n == z@.len(),
                n >= self.l + 1,
                x@.len() == i,
                x@ =~= z@.subrange(1, i + 1),
        {
            x.push(z[i + 1]);
        }
        let mut i = self.l + 1;
        while i < n
            invariant
                n == z@.len(),
                self.l + 1 <= i <= n,
                w@ =~= z@.subrange(self.l + 1, i as int),
            decreases n - i,
        {
            w.push(z[i]);
            i += 1;
        }
        proof {
            assert(w@ =~= z@.subrange(self.l + 1, z@.len() as int));
            assert(x@ =~= z@.subrange(1, self.l + 1));
        }
        (w, x)
    }
}

/// A dense random matrix in sparse form; used by `R1CS::rand`.
fn rand_matrix(rng: &mut Rng, n_rows: usize, n_cols: usize) -> (r: SparseMatrix)
    ensures
        r.wf(),
        r.n_rows == n_rows,
        r.n_cols == n_cols,
{
    let mut coeffs: Vec<Vec<(Fr, usize)>> = Vec::new();
    for i in 0..n_rows
        invariant
            coeffs@.len() == i,
            forall|a: int, b: int|
                0 <= a < i && 0 <= b < coeffs@[a]@.len() ==> (#[trigger] coeffs@[a]@[b]).1
                    < n_cols,
    {
        let mut row: Vec<(Fr, usize)> = Vec::new();
        for j in 0..n_cols
            invariant
                row@.len() == j,
                forall|b: int| 0 <= b < j ==> (#[trigger] row@[b]).1 < n_cols,
        {
            row.push((fr_rand(rng), j));
        }
        coeffs.push(row);
    }
    SparseMatrix { n_rows, n_cols, coeffs }
}

/// Extracts the R1CS of a synthesized constraint system: the A, B, C
/// matrices with their dimensions and the public-input count, validated
/// into well-formed sparse matrices.
pub fn extract_r1cs(cs: &crate::r1cs_var::CsRef) -> (r: Result<R1CS, Error>)
    ensures
        r matches Ok(out) ==> out.wf() && out.l + 1 <= out.A.n_cols,
{
    let mats = match cs.to_matrices() {
        Some(m) => m,
        None => {
            return Err(Error::ConversionError("the matrices are not generated yet".to_string()));
        },
    };
    let (l, n_rows, n_cols, a, b, c) = mats;
    if l >= n_cols {
        return Err(Error::ShapeMismatch("more inputs than variables".to_string()));
    }
    let a_m = match SparseMatrix::new(n_rows, n_cols, a) {
        Ok(m) => m,
        Err(e) => {
            return Err(e);
        },
    };
    let b_m = match SparseMatrix::new(n_rows, n_cols, b) {
        Ok(m) => m,
        Err(e) => {
            return Err(e);
        },
    };
    let c_m = match SparseMatrix::new(n_rows, n_cols, c) {
        Ok(m) => m,
        Err(e) => {
            return Err(e);
        },
    };
    Ok(R1CS { l, A: a_m, B: b_m, C: c_m })
}

/// Extracts the witness and the public inputs (without the leading
/// constant one) from a synthesized constraint system's assignment.
pub fn extract_w_x(cs: &crate::r1cs_var::CsRef) -> (r: (Vec<Fr>, Vec<Fr>)) {
    let (inst, wit) = cs.full_assignment();
    let mut x: Vec<Fr> = Vec::new();
    let mut i: usize = 1;
    while i < inst.len()
        invariant
            1 <= i && i <= inst@.len() + 1,
        decreases inst@.len() - i,
    {
        x.push(inst[i]);
        i += 1;
    }
    (wit, x)
}

/// A customizable constraint system: matrices M_0..M_{t-1}, index multisets
/// S_0..S_{q-1} over {0..t-1} and constants c_0..c_{q-1}; the relation is
/// ∑_j c_j · ∏_{k∈S_j} (M_k z) = 0.  It generalizes R1CS at t = 3, q = 2.
pub struct CCS {
    /// Number of constraints (rows of each matrix).
    pub m: usize,
    /// Number of variables (columns of each matrix).
    pub n: usize,
    /// Number of public inputs.
    pub l: usize,
    /// Number of matrices.
    pub t: usize,
    /// Number of summands.
    pub q: usize,
    /// The matrices.
    pub M: Vec<SparseMatrix>,
    /// The multisets of matrix indices, one per summand.
    pub S: Vec<Vec<usize>>,
    /// The constants, one per summand.
    pub c: Vec<Fr>,
}

impl CCS {
    /// Well-formedness: dimensions agree everywhere and the index
    /// multisets stay below t.
    pub open spec fn wf(&self) -> bool {
        &&& self.M@.len() == self.t
        &&& self.S@.len() == self.q
        &&& self.c@.len() == self.q
        &&& forall|i: int|
            0 <= i < self.M@.len() ==> {
                &&& (#[trigger] self.M@[i]).wf()
                &&& self.M@[i].n_rows == self.m
                &&& self.M@[i].n_cols == self.n
            }
        &&& forall|i: int, j: int|
            0 <= i < self.S@.len() && 0 <= j < self.S@[i]@.len()
                ==> (#[trigger] self.S@[i]@[j]) < self.t
        &&& self.l + 1 <= self.n
    }
}

/// The relation between an R1CS and the CCS that stands for it:
/// t = 3, q = 2, S_0 = {0, 1}, S_1 = {2}, c_0 = 1, c_1 = −1.
pub open spec fn is_ccs_of(c: CCS, r: R1CS) -> bool {
    &&& c.m == r.A.n_rows
    &&& c.n == r.A.n_cols
    &&& c.l == r.l
    &&& c.t == 3
    &&& c.q == 2
    &&& c.M@.len() == 3
    &&& c.M@[0] == r.A
    &&& c.M@[1] == r.B
    &&& c.M@[2] == r.C
    &&& c.S@.len() == 2
    &&& c.S@[0]@ == seq![0usize, 1usize]
    &&& c.S@[1]@ == seq![2usize]
    &&& c.c@.len() == 2
    &&& fr_nat(c.c@[0]) == 1
    &&& fr_nat(c.c@[1]) == p_neg(1)
}

/// The relation between a CCS of R1CS shape and the R1CS read back from
/// it: the first three matrices become A, B, C.
pub open spec fn is_r1cs_of(r: R1CS, c: CCS) -> bool {
    &&& r.l == c.l
    &&& r.A == c.M@[0]
    &&& r.B == c.M@[1]
    &&& r.C == c.M@[2]
}

impl R1CS {
    /// Converts the system into CCS shape.  The matrices are handed over;
    /// the system itself is consumed.
    pub fn to_ccs(self) -> (r: CCS)
        requires
            self.wf(),
            self.l + 1 <= self.A.n_cols,
        ensures
            is_ccs_of(r, self),
            r.wf(),
    {
        let mut big_m: Vec<SparseMatrix> = Vec::new();
        let m = self.A.n_rows;
        let n = self.A.n_cols;
        let l = self.l;
        big_m.push(self.A);
        big_m.push(self.B);
        big_m.push(self.C);
        let mut s: Vec<Vec<usize>> = Vec::new();
        let mut s0: Vec<usize> = Vec::new();
        s0.push(0);
        s0.push(1);
        let mut s1: Vec<usize> = Vec::new();
        s1.push(2);
        proof {
            assert(s0@ =~= seq![0usize, 1usize]);
            assert(s1@ =~= seq![2usize]);
        }
        s.push(s0);
        s.push(s1);
        let mut cs: Vec<Fr> = Vec::new();
        cs.push(Fr::one());
        cs.push(Fr::one().neg());
        proof {
            assert(big_m@ =~= seq![self.A, self.B, self.C]);
        }
        let r = CCS { m, n, l, t: 3, q: 2, M: big_m, S: s, c: cs };
        proof {
            assert forall|i: int| 0 <= i < r.M@.len() implies {
                &&& (#[trigger] r.M@[i]).wf()
                &&& r.M@[i].n_rows == r.m
                &&& r.M@[i].n_cols == r.n
            } by {
                assert(r.M@[i] == seq![self.A, self.B, self.C][i]);
            }
            assert forall|i: int, j: int|
                0 <= i < r.S@.len() && 0 <= j < r.S@[i]@.len() implies (#[trigger] r.S@[i]@[j])
                    < r.t by {
                if i == 0 {
                    assert(r.S@[0]@[j] < 3);
                } else {
                    assert(r.S@[1]@[j] < 3);
                }
            }
        }
        r
    }

    /// Reads an R1CS back from a CCS of R1CS shape (exactly three
    /// matrices).  The matrices are handed over; the CCS is consumed.
    pub fn from_ccs(c: CCS) -> (r: Result<R1CS, Error>)
        ensures
            c.M@.len() == 3 <==> r is Ok,
            r matches Ok(s) ==> is_r1cs_of(s, c),
            r matches Err(e) ==> e is ConversionError,
    {
        if c.M.len() != 3 {
            return Err(Error::ConversionError("the CCS does not have R1CS shape".to_string()));
        }
        let mut m = c.M;
        let cm = m.pop().unwrap();
        let bm = m.pop().unwrap();
        let am = m.pop().unwrap();
        Ok(R1CS { l: c.l, A: am, B: bm, C: cm })
    }
}

/// Converting an R1CS to CCS and back is the identity: the matrices and
/// the public-input count come back unchanged.
pub proof fn lemma_r1cs_ccs_round_trip(r: R1CS, c: CCS, r2: R1CS)
    requires
        is_ccs_of(c, r),
        is_r1cs_of(r2, c),
    ensures
        r2.l == r.l,
        r2.A == r.A,
        r2.B == r.B,
        r2.C == r.C,
{
}

} // verus!
