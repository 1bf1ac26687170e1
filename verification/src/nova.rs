//! The Nova folding scheme over C1: committed instances and witnesses of
//! the (relaxed) R1CS relation, the instance hash H, and the
//! non-interactive folding step (NIFS) that combines a running and an
//! incoming pair by a random linear combination.

use vstd::prelude::*;

use crate::arith::R1CS;
use crate::curve::{g1_val, g1a_vals, gadd, gmul, G1};
use crate::field::{fr_nat, p_add, p_mul, Fr};
use crate::linalg::{
    copy_fr_vec, hadamard, mat_vec, vadd, vals, vec_add, vec_eq, vec_scalar_mul, vec_sub, vhadamard,
    vscale, vsub, zero_vec,
};
use crate::nonnative::{point_to_nonnative_limbs, point_x_limbs, point_y_limbs};
use crate::pedersen::{pedersen_commit, pedersen_commit_val, PedersenParams};
use crate::transcript::{cfg_id, poseidon_hash, poseidon_of, PoseidonConfig};
use crate::Error;

verus! {

/// A committed instance: commitments to the error and witness vectors,
/// the relaxation scalar u, and the public inputs x.  A fresh (incoming)
/// instance has cmE = 0 and u = 1.
pub struct CommittedInstance {
    /// Commitment to the error vector E.
    pub cmE: G1,
    /// The relaxation scalar.
    pub u: Fr,
    /// Commitment to the witness vector W.
    pub cmW: G1,
    /// The public inputs.
    pub x: Vec<Fr>,
}

impl Clone for CommittedInstance {
    fn clone(&self) -> (r: Self)
        ensures
            r.cmE == self.cmE,
            r.u == self.u,
            r.cmW == self.cmW,
            r.x@ == self.x@,
    {
        CommittedInstance { cmE: self.cmE, u: self.u, cmW: self.cmW, x: copy_fr_vec(&self.x) }
    }
}

/// A witness of the relaxed relation: the error vector E and witness
/// vector W with their blinding factors (zero in non-hiding mode).
pub struct Witness {
    /// The error vector.
    pub E: Vec<Fr>,
    /// Blinding factor of cmE.
    pub rE: Fr,
    /// The witness vector.
    pub W: Vec<Fr>,
    /// Blinding factor of cmW.
    pub rW: Fr,
}

impl Clone for Witness {
    fn clone(&self) -> (r: Self)
        ensures
            r.E@ == self.E@,
            r.rE == self.rE,
            r.W@ == self.W@,
            r.rW == self.rW,
    {
        Witness { E: copy_fr_vec(&self.E), rE: self.rE, W: copy_fr_vec(&self.W), rW: self.rW }
    }
}

impl CommittedInstance {
    /// The empty (dummy) instance: both commitments at the identity,
    /// u = 1, no public inputs.
    pub fn empty() -> (r: CommittedInstance)
        ensures
            g1_val(r.cmE) == 0,
            fr_nat(r.u) == 1,
            g1_val(r.cmW) == 0,
            r.x@.len() == 0,
    {
        CommittedInstance { cmE: G1::zero(), u: Fr::one(), cmW: G1::zero(), x: Vec::new() }
    }

    /// The dummy running instance with `l` zero public inputs: everything
    /// zero, so the all-zero witness satisfies the relaxed relation
    /// trivially and folding can start from it.
    pub fn dummy(l: usize) -> (r: CommittedInstance)
        ensures
            g1_val(r.cmE) == 0,
            fr_nat(r.u) == 0,
            g1_val(r.cmW) == 0,
            vals(r.x@) =~= Seq::new(l as nat, |i: int| 0nat),
            r.x@.len() == l,
    {
        let x = zero_vec(l);
        proof {
            assert(vals(x@) =~= Seq::new(l as nat, |i: int| 0nat));
        }
        CommittedInstance { cmE: G1::zero(), u: Fr::zero(), cmW: G1::zero(), x }
    }

    /// The hash H(i, z_0, z_i, U): the Poseidon hash of the step counter,
    /// the initial and current states, and the instance with its
    /// commitments decomposed into non-native limbs.
    pub fn hash(&self, cfg: &PoseidonConfig, i: &Fr, z_0: &Vec<Fr>, z_i: &Vec<Fr>) -> (r: Fr)
        ensures
            fr_nat(r) == instance_hash(
                cfg_id(*cfg),
                fr_nat(*i),
                vals(z_0@),
                vals(z_i@),
                g1_val(self.cmE),
                fr_nat(self.u),
                g1_val(self.cmW),
                vals(self.x@),
            ),
    {
        let (cme_x, cme_y) = point_to_nonnative_limbs(&self.cmE);
        let (cmw_x, cmw_y) = point_to_nonnative_limbs(&self.cmW);
        let mut input: Vec<Fr> = Vec::new();
        input.push(*i);
        append_fr_vec(&mut input, z_0);
        append_fr_vec(&mut input, z_i);
        input.push(self.u);
        append_fr_vec(&mut input, &self.x);
        append_fr_vec(&mut input, &cme_x);
        append_fr_vec(&mut input, &cme_y);
        append_fr_vec(&mut input, &cmw_x);
        append_fr_vec(&mut input, &cmw_y);
        proof {
            assert(vals(input@) =~= hash_input(
                fr_nat(*i),
                vals(z_0@),
                vals(z_i@),
                g1_val(self.cmE),
                fr_nat(self.u),
                g1_val(self.cmW),
                vals(self.x@),
            ));
        }
        poseidon_hash(cfg, &input)
    }
}

/// Appends the entries of `src` to `dst`.
fn append_fr_vec(dst: &mut Vec<Fr>, src: &Vec<Fr>)
    ensures
        final(dst)@ == old(dst)@ + src@,
{
    for i in 0..src.len()
        invariant
            dst@ =~= old(dst)@ + src@.take(i as int),
    {
        dst.push(src[i]);
    }
    proof {
        assert(dst@ =~= old(dst)@ + src@);
    }
}

/// The packed input of the instance hash: the step counter, the states,
/// the scalar u, the public inputs, and the limbs of both commitments.
pub open spec fn hash_input(
    i: nat,
    z0: Seq<nat>,
    zi: Seq<nat>,
    cme: nat,
    u: nat,
    cmw: nat,
    x: Seq<nat>,
) -> Seq<nat> {
    seq![i] + z0 + zi + seq![u] + x + point_x_limbs(cme) + point_y_limbs(cme) + point_x_limbs(cmw)
        + point_y_limbs(cmw)
}

/// The instance hash H(i, z_0, z_i, U) as a function of the models.
pub open spec fn instance_hash(
    cfg: nat,
    i: nat,
    z0: Seq<nat>,
    zi: Seq<nat>,
    cme: nat,
    u: nat,
    cmw: nat,
    x: Seq<nat>,
) -> nat {
    poseidon_of(cfg, hash_input(i, z0, zi, cme, u, cmw, x))
}

impl Witness {
    /// A witness around a given W vector: zero error vector of the given
    /// length and zero blinding factors (the commitments are non-hiding).
    pub fn new(w: Vec<Fr>, e_len: usize) -> (r: Witness)
        ensures
            r.W@ == w@,
            r.E@.len() == e_len,
            forall|j: int| 0 <= j < e_len ==> fr_nat(#[trigger] r.E@[j]) == 0,
            fr_nat(r.rE) == 0,
            fr_nat(r.rW) == 0,
    {
        Witness { E: zero_vec(e_len), rE: Fr::zero(), W: w, rW: Fr::zero() }
    }

    /// Commits to the witness under the given Pedersen parameters,
    /// producing a fresh committed instance with u = 1 and the given
    /// public inputs.
    pub fn commit(&self, params: &PedersenParams, x: Vec<Fr>) -> (r: Result<
        CommittedInstance,
        Error,
    >)
        ensures
            r is Ok <==> (fr_nat(self.rE) == 0 && fr_nat(self.rW) == 0 && self.E@.len()
                <= params.generators@.len() && self.W@.len() <= params.generators@.len()),
            r matches Err(e) ==> (e is BlindingNotZero || e is ShapeMismatch),
            r matches Ok(ci) ==> {
                &&& g1_val(ci.cmE) == if crate::linalg::is_zero_seq(vals(self.E@)) {
                    0
                } else {
                    pedersen_commit_val(g1a_vals(params.generators@), vals(self.E@))
                }
                &&& fr_nat(ci.u) == 1
                &&& g1_val(ci.cmW) == pedersen_commit_val(
                    g1a_vals(params.generators@),
                    vals(self.W@),
                )
                &&& ci.x@ == x@
            },
    {
        if self.E.len() > params.generators.len() || self.W.len() > params.generators.len() {
            return Err(Error::ShapeMismatch("witness longer than the generator list".to_string()));
        }
        let cmE = if crate::linalg::is_zero_vec(&self.E) {
            if !self.rE.is_zero() {
                return Err(Error::BlindingNotZero);
            }
            G1::zero()
        } else {
            match pedersen_commit(params, &self.E, &self.rE) {
                Ok(c) => c,
                Err(e) => {
                    return Err(e);
                },
            }
        };
        let cmW = match pedersen_commit(params, &self.W, &self.rW) {
            Ok(c) => c,
            Err(e) => {
                return Err(e);
            },
        };
        Ok(CommittedInstance { cmE, u: Fr::one(), cmW, x })
    }
}

/// The variable vector of the relaxed relation: (u, x, w).
pub open spec fn relaxed_z(u: nat, x: Seq<nat>, w: Seq<nat>) -> Seq<nat> {
    seq![u] + x + w
}

/// Whether a witness and a committed instance satisfy the relaxed R1CS
/// relation on the witness side: (Az) ∘ (Bz) − u·(Cz) = E for
/// z = (u, x, w), with the dimensions in place.
pub open spec fn relaxed_relation_holds(
    r: R1CS,
    u: nat,
    x: Seq<nat>,
    w: Seq<nat>,
    e: Seq<nat>,
) -> bool {
    &&& 1 + x.len() + w.len() == r.A.n_cols
    &&& r.A.n_cols >= 1
    &&& r.eval_model(relaxed_z(u, x, w)) == e
}

impl R1CS {
    /// Checks that (W, U) satisfies the relaxed relation: the residual at
    /// z = (u, x, W) must equal the error vector E.
    pub fn check_instance_relation(&self, w: &Witness, u: &CommittedInstance) -> (r: Result<
        (),
        Error,
    >)
        requires
            self.wf(),
        ensures
            r is Ok <==> relaxed_relation_holds(
                *self,
                fr_nat(u.u),
                vals(u.x@),
                vals(w.W@),
                vals(w.E@),
            ),
            r matches Err(e) ==> (e is NotSatisfied || e is ShapeMismatch),
    {
        let mut z: Vec<Fr> = Vec::new();
        z.push(u.u);
        append_fr_vec(&mut z, &u.x);
        append_fr_vec(&mut z, &w.W);
        proof {
            assert(vals(z@) =~= relaxed_z(fr_nat(u.u), vals(u.x@), vals(w.W@)));
        }
        let e = match self.eval_at_z(&z) {
            Ok(e) => e,
            Err(err) => {
                return Err(err);
            },
        };
        if vec_eq(&e, &w.E) {
            Ok(())
        } else {
            Err(Error::NotSatisfied)
        }
    }
}

/// The cross term T of two variable vectors:
/// Az1 ∘ Bz2 + Az2 ∘ Bz1 − u1·Cz2 − u2·Cz1.
pub open spec fn cross_term(r: R1CS, z1: Seq<nat>, z2: Seq<nat>, u1: nat, u2: nat) -> Seq<nat> {
    vsub(
        vsub(
            vadd(
                vhadamard(mat_vec(r.A.rows(), z1), mat_vec(r.B.rows(), z2)),
                vhadamard(mat_vec(r.A.rows(), z2), mat_vec(r.B.rows(), z1)),
            ),
            vscale(u1, mat_vec(r.C.rows(), z2)),
        ),
        vscale(u2, mat_vec(r.C.rows(), z1)),
    )
}

/// Computes the cross term T for the running pair (U, W) and the incoming
/// pair (u, w); the variable vectors must match the matrix columns.
pub fn compute_t(
    r1cs: &R1CS,
    U: &CommittedInstance,
    W: &Witness,
    u: &CommittedInstance,
    w: &Witness,
) -> (r: Result<Vec<Fr>, Error>)
    requires
        r1cs.wf(),
    ensures
        r is Ok <==> (1 + U.x@.len() + W.W@.len() == r1cs.A.n_cols && 1 + u.x@.len() + w.W@.len()
            == r1cs.A.n_cols),
        r matches Ok(t) ==> vals(t@) == cross_term(
            *r1cs,
            relaxed_z(fr_nat(U.u), vals(U.x@), vals(W.W@)),
            relaxed_z(fr_nat(u.u), vals(u.x@), vals(w.W@)),
            fr_nat(U.u),
            fr_nat(u.u),
        ),
        r matches Err(e) ==> e is ShapeMismatch,
{
    let mut z1: Vec<Fr> = Vec::new();
    z1.push(U.u);
    append_fr_vec(&mut z1, &U.x);
    append_fr_vec(&mut z1, &W.W);
    let mut z2: Vec<Fr> = Vec::new();
    z2.push(u.u);
    append_fr_vec(&mut z2, &u.x);
    append_fr_vec(&mut z2, &w.W);
    proof {
        assert(vals(z1@) =~= relaxed_z(fr_nat(U.u), vals(U.x@), vals(W.W@)));
        assert(vals(z2@) =~= relaxed_z(fr_nat(u.u), vals(u.x@), vals(w.W@)));
    }
    if z1.len() != r1cs.A.n_cols || z2.len() != r1cs.A.n_cols {
        return Err(Error::ShapeMismatch("variable vectors do not match the columns".to_string()));
    }
    let az1 = r1cs.A.mul_vector(&z1).unwrap();
    let bz1 = r1cs.B.mul_vector(&z1).unwrap();
    let cz1 = r1cs.C.mul_vector(&z1).unwrap();
    let az2 = r1cs.A.mul_vector(&z2).unwrap();
    let bz2 = r1cs.B.mul_vector(&z2).unwrap();
    let cz2 = r1cs.C.mul_vector(&z2).unwrap();
    proof {
        assert(az1@.len() == vals(az1@).len() && bz1@.len() == vals(bz1@).len() && cz1@.len()
            == vals(cz1@).len());
        assert(az2@.len() == vals(az2@).len() && bz2@.len() == vals(bz2@).len() && cz2@.len()
            == vals(cz2@).len());
        assert(az1@.len() == r1cs.A.rows().len() && bz1@.len() == r1cs.B.rows().len() && cz1@.len()
            == r1cs.C.rows().len());
        assert(az2@.len() == r1cs.A.rows().len() && bz2@.len() == r1cs.B.rows().len() && cz2@.len()
            == r1cs.C.rows().len());
    }
    let p1 = hadamard(&az1, &bz2).unwrap();
    let p2 = hadamard(&az2, &bz1).unwrap();
    proof {
        assert(p1@.len() == vals(p1@).len() && p2@.len() == vals(p2@).len());
        assert(p1@.len() == az1@.len() && p2@.len() == az2@.len());
    }
    let s = vec_add(&p1, &p2).unwrap();
    let u1cz2 = vec_scalar_mul(&cz2, &U.u);
    let u2cz1 = vec_scalar_mul(&cz1, &u.u);
    proof {
        assert(s@.len() == vals(s@).len() && u1cz2@.len() == vals(u1cz2@).len() && u2cz1@.len()
            == vals(u2cz1@).len());
        assert(s@.len() == p1@.len() && u1cz2@.len() == cz2@.len() && u2cz1@.len() == cz1@.len());
    }
    let d1 = vec_sub(&s, &u1cz2).unwrap();
    proof {
        assert(d1@.len() == vals(d1@).len() && d1@.len() == s@.len());
    }
    let t = vec_sub(&d1, &u2cz1).unwrap();
    proof {
        assert(vals(t@) =~= cross_term(
            *r1cs,
            vals(z1@),
            vals(z2@),
            fr_nat(U.u),
            fr_nat(u.u),
        ));
    }
    Ok(t)
}

/// Folds the running and incoming witnesses with challenge r:
/// E' = E₁ + r·T (the incoming error vector is zero), W' = W₁ + r·W₂, and
/// the blinding factors combine linearly.
pub fn fold_witness(r: &Fr, w1: &Witness, w2: &Witness, t: &Vec<Fr>) -> (res: Result<
    Witness,
    Error,
>)
    ensures
        res is Ok <==> (w1.E@.len() == t@.len() && w1.W@.len() == w2.W@.len()),
        res matches Ok(wf) ==> {
            &&& vals(wf.E@) == vadd(vals(w1.E@), vscale(fr_nat(*r), vals(t@)))
            &&& fr_nat(wf.rE) == p_add(fr_nat(w1.rE), p_mul(fr_nat(*r), fr_nat(w2.rE)))
            &&& vals(wf.W@) == vadd(vals(w1.W@), vscale(fr_nat(*r), vals(w2.W@)))
            &&& fr_nat(wf.rW) == p_add(fr_nat(w1.rW), p_mul(fr_nat(*r), fr_nat(w2.rW)))
        },
        res matches Err(e) ==> e is ShapeMismatch,
{
    let rt = vec_scalar_mul(t, r);
    proof {
        assert(rt@.len() == vals(rt@).len() && rt@.len() == t@.len());
    }
    let e = match vec_add(&w1.E, &rt) {
        Ok(e) => e,
        Err(err) => {
            return Err(err);
        },
    };
    let rw2 = vec_scalar_mul(&w2.W, r);
    proof {
        assert(rw2@.len() == vals(rw2@).len() && rw2@.len() == w2.W@.len());
    }
    let w = match vec_add(&w1.W, &rw2) {
        Ok(w) => w,
        Err(err) => {
            return Err(err);
        },
    };
    let re = w1.rE.add(&r.mul(&w2.rE));
    let rw = w1.rW.add(&r.mul(&w2.rW));
    Ok(Witness { E: e, rE: re, W: w, rW: rw })
}

/// Folds the running and incoming committed instances with challenge r:
/// the linear combination
/// cmE' = cmE₁ + r·cmT + r²·cmE₂, u' = u₁ + r·u₂,
/// cmW' = cmW₁ + r·cmW₂, x' = x₁ + r·x₂, field by field.
pub fn fold_committed_instance(
    r: &Fr,
    ci1: &CommittedInstance,
    ci2: &CommittedInstance,
    cmT: &G1,
) -> (res: Result<CommittedInstance, Error>)
    ensures
        res is Ok <==> ci1.x@.len() == ci2.x@.len(),
        res matches Ok(ci) ==> {
            &&& g1_val(ci.cmE) == gadd(
                g1_val(ci1.cmE),
                gadd(
                    gmul(fr_nat(*r), g1_val(*cmT)),
                    gmul(p_mul(fr_nat(*r), fr_nat(*r)), g1_val(ci2.cmE)),
                ),
            )
            &&& fr_nat(ci.u) == p_add(fr_nat(ci1.u), p_mul(fr_nat(*r), fr_nat(ci2.u)))
            &&& g1_val(ci.cmW) == gadd(g1_val(ci1.cmW), gmul(fr_nat(*r), g1_val(ci2.cmW)))
            &&& vals(ci.x@) == vadd(vals(ci1.x@), vscale(fr_nat(*r), vals(ci2.x@)))
        },
        res matches Err(e) ==> e is ShapeMismatch,
{
    let r2 = r.mul(r);
    let cmE = ci1.cmE.add(&cmT.scalar_mul(r).add(&ci2.cmE.scalar_mul(&r2)));
    let u = ci1.u.add(&r.mul(&ci2.u));
    let cmW = ci1.cmW.add(&ci2.cmW.scalar_mul(r));
    let rx2 = vec_scalar_mul(&ci2.x, r);
    proof {
        assert(rx2@.len() == vals(rx2@).len() && rx2@.len() == ci2.x@.len());
    }
    let x = match vec_add(&ci1.x, &rx2) {
        Ok(x) => x,
        Err(err) => {
            return Err(err);
        },
    };
    Ok(CommittedInstance { cmE, u, cmW, x })
}

/// One non-interactive folding step: computes the cross term T, commits
/// to it with zero blinding, and folds witnesses and instances with the
/// given challenge.  Returns (W', U', T, cmT).
pub fn nifs_prove(
    params: &PedersenParams,
    r: &Fr,
    r1cs: &R1CS,
    w1: &Witness,
    ci1: &CommittedInstance,
    w2: &Witness,
    ci2: &CommittedInstance,
) -> (res: Result<(Witness, CommittedInstance, Vec<Fr>, G1), Error>)
    requires
        r1cs.wf(),
    ensures
        res is Ok <==> {
            &&& 1 + ci2.x@.len() + w2.W@.len() == r1cs.A.n_cols
            &&& 1 + ci1.x@.len() + w1.W@.len() == r1cs.A.n_cols
            &&& r1cs.A.n_rows <= params.generators@.len()
            &&& w1.E@.len() == r1cs.A.n_rows
            &&& w1.W@.len() == w2.W@.len()
            &&& ci1.x@.len() == ci2.x@.len()
        },
        res matches Ok(out) ==> {
            let t = cross_term(
                *r1cs,
                relaxed_z(fr_nat(ci2.u), vals(ci2.x@), vals(w2.W@)),
                relaxed_z(fr_nat(ci1.u), vals(ci1.x@), vals(w1.W@)),
                fr_nat(ci2.u),
                fr_nat(ci1.u),
            );
            &&& vals(out.2@) == t
            &&& g1_val(out.3) == pedersen_commit_val(g1a_vals(params.generators@), t)
            &&& vals(out.0.E@) == vadd(vals(w1.E@), vscale(fr_nat(*r), t))
            &&& vals(out.0.W@) == vadd(vals(w1.W@), vscale(fr_nat(*r), vals(w2.W@)))
            &&& g1_val(out.1.cmE) == gadd(
                g1_val(ci1.cmE),
                gadd(
                    gmul(fr_nat(*r), g1_val(out.3)),
                    gmul(p_mul(fr_nat(*r), fr_nat(*r)), g1_val(ci2.cmE)),
                ),
            )
            &&& fr_nat(out.1.u) == p_add(fr_nat(ci1.u), p_mul(fr_nat(*r), fr_nat(ci2.u)))
            &&& g1_val(out.1.cmW) == gadd(g1_val(ci1.cmW), gmul(fr_nat(*r), g1_val(ci2.cmW)))
            &&& vals(out.1.x@) == vadd(vals(ci1.x@), vscale(fr_nat(*r), vals(ci2.x@)))
        },
{
    let t = match compute_t(r1cs, ci2, w2, ci1, w1) {
        Ok(t) => t,
        Err(err) => {
            return Err(err);
        },
    };
    proof {
        assert(t@.len() == vals(t@).len());
        assert(vals(t@).len() == r1cs.A.rows().len());
    }
    let zero = Fr::zero();
    let cmT = match pedersen_commit(params, &t, &zero) {
        Ok(c) => c,
        Err(err) => {
            return Err(err);
        },
    };
    let w_folded = match fold_witness(r, w1, w2, &t) {
        Ok(w) => w,
        Err(err) => {
            return Err(err);
        },
    };
    let ci_folded = match fold_committed_instance(r, ci1, ci2, &cmT) {
        Ok(ci) => ci,
        Err(err) => {
            return Err(err);
        },
    };
    Ok((w_folded, ci_folded, t, cmT))
}

/// Absorbs a committed instance into the transcript: u, the public
/// inputs, then both commitments through their limbs.
pub fn absorb_instance(t: &mut crate::transcript::Transcript, ci: &CommittedInstance)
    ensures
        crate::transcript::t_cfg(*final(t)) == crate::transcript::t_cfg(*old(t)),
        crate::transcript::t_hist(*final(t)) == crate::transcript::t_hist(*old(t))
            + instance_absorption(
            fr_nat(ci.u),
            vals(ci.x@),
            g1_val(ci.cmE),
            g1_val(ci.cmW),
        ),
{
    t.absorb(&ci.u);
    t.absorb_vec(&ci.x);
    t.absorb_point(&ci.cmE);
    t.absorb_point(&ci.cmW);
    proof {
        assert(crate::transcript::t_hist(*t) =~= crate::transcript::t_hist(*old(t))
            + instance_absorption(fr_nat(ci.u), vals(ci.x@), g1_val(ci.cmE), g1_val(ci.cmW)));
    }
}

/// The history entries an absorbed instance contributes: u, x, then the
/// limbs of cmE and cmW.
pub open spec fn instance_absorption(u: nat, x: Seq<nat>, cme: nat, cmw: nat) -> Seq<int> {
    crate::transcript::absorbed(seq![u] + x) + crate::transcript::absorbed(point_x_limbs(cme))
        + crate::transcript::absorbed(point_y_limbs(cme)) + crate::transcript::absorbed(
        point_x_limbs(cmw),
    ) + crate::transcript::absorbed(point_y_limbs(cmw))
}

} // verus!
