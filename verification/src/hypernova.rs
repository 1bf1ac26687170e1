//! HyperNova building blocks for the onchain decider: linearized and
//! committed CCS instances, their in-circuit witness and matrix gadgets
//! with multilinear-extension evaluation, and the gadget that replays the
//! scalar part of one multifolding step.

use vstd::prelude::*;

use crate::curve::G1;
use crate::field::{fr_nat, p_add, p_mul, p_sub, Fr};
use crate::gadgets::{MatrixGadget, SparseMatrixVar, VectorGadget};
use crate::linalg::{mat_vec, vadd, vals, vscale};
use crate::nonnative::NonNativeAffineVar;
use crate::r1cs_var::{fv, fvals, fvar_from_le_bits, CsRef, FVar, TranscriptVar};
use crate::sum_check::{DensePolynomialVar, SumCheckVerifierGadget};
use crate::Error;

verus! {

/// A linearized CCS instance: a commitment, the relaxation scalar u, the
/// public inputs, the random evaluation point r_x and the claimed
/// evaluations v_j of the matrix polynomials there.
pub struct LCCCS {
    /// The commitment to the witness.
    pub C: G1,
    /// The relaxation scalar.
    pub u: Fr,
    /// The public inputs.
    pub x: Vec<Fr>,
    /// The evaluation point.
    pub r_x: Vec<Fr>,
    /// The claimed evaluations, one per matrix.
    pub v: Vec<Fr>,
}

/// A committed CCS instance: a commitment and the public inputs.
pub struct CCCS {
    /// The commitment to the witness.
    pub C: G1,
    /// The public inputs.
    pub x: Vec<Fr>,
}

/// The in-circuit witness of a CCS instance.
pub struct WitnessVar {
    /// The witness vector.
    pub w: Vec<FVar>,
    /// The blinding factor of its commitment.
    pub r_w: FVar,
}

impl WitnessVar {
    /// Allocates a witness vector and its blinding factor as circuit
    /// witnesses.
    pub fn new_witness(cs: &CsRef, w: &Vec<Fr>, r_w: &Fr) -> (r: Result<WitnessVar, Error>)
        ensures
            r matches Ok(v) ==> fvals(v.w@) == vals(w@) && fv(v.r_w) == fr_nat(*r_w),
    {
        let wv = match crate::augmented::witness_vec(cs, w) {
            Ok(v) => v,
            Err(e) => {
                return Err(e);
            },
        };
        let rv = match FVar::witness(cs, r_w) {
            Ok(v) => v,
            Err(e) => {
                return Err(e);
            },
        };
        Ok(WitnessVar { w: wv, r_w: rv })
    }

    /// The openings this witness contributes: its vector and blinding
    /// factor.
    pub fn get_openings(&self) -> (r: (Vec<FVar>, FVar))
        ensures
            r.0@ == self.w@,
            r.1 == self.r_w,
    {
        let mut w: Vec<FVar> = Vec::new();
        for i in 0..self.w.len()
            invariant
                w@ =~= self.w@.take(i as int),
        {
            w.push(self.w[i].clone());
        }
        proof {
            assert(w@ =~= self.w@);
        }
        (w, self.r_w.clone())
    }
}

/// A linearized CCS instance allocated in the circuit.
pub struct LCCCSVar {
    /// The commitment, as non-native limbs.
    pub C: NonNativeAffineVar,
    /// The relaxation scalar.
    pub u: FVar,
    /// The public inputs.
    pub x: Vec<FVar>,
    /// The evaluation point.
    pub r_x: Vec<FVar>,
    /// The claimed evaluations.
    pub v: Vec<FVar>,
}

/// A committed CCS instance allocated in the circuit.
pub struct CCCSVar {
    /// The commitment, as non-native limbs.
    pub C: NonNativeAffineVar,
    /// The public inputs.
    pub x: Vec<FVar>,
}

/// One folding round of a multilinear-extension evaluation: entries are
/// paired (2k, 2k+1) and combined with v[2k] + r·(v[2k+1] − v[2k]).
pub open spec fn mle_round(v: Seq<nat>, r: nat) -> Seq<nat> {
    Seq::new((v.len() / 2) as nat, |k: int| p_add(v[2 * k], p_mul(r, p_sub(v[2 * k + 1], v[2 * k]))))
}

/// The multilinear extension of the vector `v` (of length 2^|r|)
/// evaluated at the point r, folding one variable per round, lowest
/// variable first.
pub open spec fn mle_eval(v: Seq<nat>, r: Seq<nat>) -> nat
    decreases r.len(),
{
    if r.len() == 0 {
        if v.len() == 0 {
            0
        } else {
            v[0]
        }
    } else {
        mle_eval(mle_round(v, r[0]), r.drop_first())
    }
}

/// 2^k.
pub open spec fn pow2_n(k: nat) -> nat
    decreases k,
{
    if k == 0 {
        1
    } else {
        2 * pow2_n((k - 1) as nat)
    }
}

/// 2^b is at least twice 2^a for a < b, and powers of two are positive.
proof fn lemma_pow2_split(a: nat, b: nat)
    requires
        a < b,
    ensures
        pow2_n(b) >= 2 * pow2_n(a),
        pow2_n(a) >= 1,
    decreases b,
{
    if a + 1 < b {
        lemma_pow2_split(a, (b - 1) as nat);
    } else {
        lemma_pow2_pos(a);
    }
}

/// 2^(a+b) = 2^a · 2^b.
proof fn lemma_pow2_mul(a: nat, b: nat)
    ensures
        pow2_n(a + b) == pow2_n(a) * pow2_n(b),
    decreases b,
{
    if b > 0 {
        lemma_pow2_mul(a, (b - 1) as nat);
        assert(pow2_n(a + b) == 2 * pow2_n((a + b - 1) as nat));
        assert(pow2_n(a) * pow2_n(b) == pow2_n(a) * (2 * pow2_n((b - 1) as nat)));
        assert(pow2_n(a) * (2 * pow2_n((b - 1) as nat)) == 2 * (pow2_n(a) * pow2_n(
            (b - 1) as nat,
        ))) by (nonlinear_arith);
        assert(2 * (pow2_n(a) * pow2_n((b - 1) as nat)) == 2 * pow2_n((a + b - 1) as nat));
    } else {
        assert(pow2_n(a) * pow2_n(0) == pow2_n(a) * 1);
        assert(pow2_n(a) * 1 == pow2_n(a)) by (nonlinear_arith);
    }
}

/// Powers of two are positive.
proof fn lemma_pow2_pos(a: nat)
    ensures
        pow2_n(a) >= 1,
    decreases a,
{
    if a > 0 {
        lemma_pow2_pos((a - 1) as nat);
    }
}

/// Evaluates the multilinear extension of the values of `v` at the point
/// given by the values of `r`, in-circuit; `v` must have length 2^|r|.
pub fn eval_mle(v: &Vec<FVar>, r: &Vec<FVar>) -> (res: Result<FVar, Error>)
    ensures
        res is Ok <==> (v@.len() == pow2_n(r@.len() as nat) && v@.len() <= 0x2000_0000),
        res matches Ok(out) ==> fv(out) == mle_eval(fvals(v@), fvals(r@)),
        res matches Err(e) ==> e is ShapeMismatch,
{
    // the length must be exactly 2^rounds, within the supported range
    let mut need: usize = 1;
    for k in 0..r.len()
        invariant
            need == pow2_n(k as nat),
            need <= 0x2000_0000,
        decreases r@.len() - k,
    {
        if need > 0x1000_0000 {
            proof {
                lemma_pow2_split(k as nat, r@.len() as nat);
            }
            return Err(Error::ShapeMismatch("point too long".to_string()));
        }
        need = need * 2;
    }
    if v.len() != need || need > 0x2000_0000 {
        return Err(Error::ShapeMismatch("vector length is not a power of the point".to_string()));
    }
    let mut cur: Vec<FVar> = Vec::new();
    for i in 0..v.len()
        invariant
            cur@ =~= v@.take(i as int),
    {
        cur.push(v[i].clone());
    }
    proof {
        assert(cur@ =~= v@);
        assert(fvals(r@).subrange(0, r@.len() as int) =~= fvals(r@));
        assert(pow2_n(0) == 1);
        assert(cur@.len() * 1 == cur@.len()) by (nonlinear_arith);
    }
    let mut round: usize = 0;
    while round < r.len()
        invariant
            round <= r@.len(),
            cur@.len() * pow2_n(round as nat) == v@.len(),
            v@.len() == pow2_n(r@.len() as nat),
            mle_eval(fvals(v@), fvals(r@)) == mle_eval(
                fvals(cur@),
                fvals(r@).subrange(round as int, r@.len() as int),
            ),
        decreases r@.len() - round,
    {
        proof {
            lemma_pow2_split(round as nat, r@.len() as nat);
            assert(cur@.len() >= 2) by (nonlinear_arith)
                requires
                    cur@.len() * pow2_n(round as nat) == v@.len(),
                    v@.len() == pow2_n(r@.len() as nat),
                    pow2_n(r@.len() as nat) >= 2 * pow2_n(round as nat),
                    pow2_n(round as nat) >= 1,
            ;
        }
        let ghost pre = fvals(cur@);
        let ghost rv = fv(r@[round as int]);
        let mut next: Vec<FVar> = Vec::new();
        let n = cur.len();
        let half = n / 2;
        for k in 0..half
            invariant
                n == cur@.len(),
                half == n / 2,
                2 * half <= n,
                cur@.len() >= 2,
                next@.len() == k,
                rv == fv(r@[round as int]),
                round < r@.len(),
                forall|j: int|
                    0 <= j < k ==> fv(#[trigger] next@[j]) == p_add(
                        fv(cur@[2 * j]),
                        p_mul(rv, p_sub(fv(cur@[2 * j + 1]), fv(cur@[2 * j]))),
                    ),
        {
            let d = cur[2 * k + 1].sub(&cur[2 * k]);
            let t = r[round].mul(&d);
            next.push(cur[2 * k].add(&t));
        }
        proof {
            assert(fvals(next@) =~= mle_round(pre, rv));
            assert(fvals(r@).subrange(round as int, r@.len() as int).drop_first() =~= fvals(
                r@,
            ).subrange(round + 1, r@.len() as int));
            assert(fvals(r@).subrange(round as int, r@.len() as int)[0] == rv);
            lemma_pow2_pos(round as nat);
            lemma_pow2_mul((round + 1) as nat, (r@.len() - round - 1) as nat);
            assert(cur@.len() % 2 == 0 && cur@.len() / 2 == pow2_n(
                (r@.len() - round - 1) as nat,
            )) by (nonlinear_arith)
                requires
                    cur@.len() * pow2_n(round as nat) == v@.len(),
                    v@.len() == pow2_n(r@.len() as nat),
                    pow2_n(r@.len() as nat) == pow2_n((round + 1) as nat) * pow2_n(
                        (r@.len() - round - 1) as nat,
                    ),
                    pow2_n((round + 1) as nat) == 2 * pow2_n(round as nat),
                    pow2_n(round as nat) >= 1,
            ;
            assert((cur@.len() / 2) * pow2_n((round + 1) as nat) == v@.len()) by (nonlinear_arith)
                requires
                    cur@.len() * pow2_n(round as nat) == v@.len(),
                    pow2_n((round + 1) as nat) == 2 * pow2_n(round as nat),
                    cur@.len() % 2 == 0,
            ;
        }
        cur = next;
        round = round + 1;
    }
    proof {
        assert(pow2_n(0) == 1);
        lemma_pow2_pos(round as nat);
        assert(cur@.len() == 1) by (nonlinear_arith)
            requires
                cur@.len() * pow2_n(round as nat) == v@.len(),
                v@.len() == pow2_n(r@.len() as nat),
                round == r@.len(),
                pow2_n(round as nat) == pow2_n(r@.len() as nat),
                pow2_n(round as nat) >= 1,
        ;
        assert(fvals(r@).subrange(r@.len() as int, r@.len() as int) =~= Seq::<nat>::empty());
        assert(fvals(cur@)[0] == fv(cur@[0]));
    }
    Ok(cur[0].clone())
}

/// The CCS matrices mirrored into the circuit as constants.
pub struct CCSMatricesVar {
    /// The matrices.
    pub M: Vec<SparseMatrixVar>,
}

impl CCSMatricesVar {
    /// Evaluates the linearized relation's claims in-circuit: for each
    /// matrix M_j, the multilinear extension of M_j·z at the instance's
    /// evaluation point, with z = (u, x, w).
    pub fn eval_relation(&self, w: &WitnessVar, u: &LCCCSVar) -> (res: Result<Vec<FVar>, Error>)
        requires
            forall|j: int| 0 <= j < self.M@.len() ==> (#[trigger] self.M@[j]).wf(),
        ensures
            res matches Ok(out) ==> {
                &&& out@.len() == self.M@.len()
                &&& forall|j: int|
                    0 <= j < out@.len() ==> fv(#[trigger] out@[j]) == mle_eval(
                        mat_vec(
                            self.M@[j].rows(),
                            seq![fv(u.u)] + fvals(u.x@) + fvals(w.w@),
                        ),
                        fvals(u.r_x@),
                    )
            },
    {
        let mut z: Vec<FVar> = Vec::new();
        z.push(u.u.clone());
        for i in 0..u.x.len()
            invariant
                z@.len() == 1 + i,
                z@ =~= seq![z@[0]] + u.x@.take(i as int),
                z@[0] == u.u,
        {
            z.push(u.x[i].clone());
        }
        for i in 0..w.w.len()
            invariant
                z@.len() == 1 + u.x@.len() + i,
                z@ =~= seq![z@[0]] + u.x@ + w.w@.take(i as int),
                z@[0] == u.u,
        {
            z.push(w.w[i].clone());
        }
        proof {
            assert(z@ =~= seq![u.u] + u.x@ + w.w@);
            assert(fvals(z@) =~= seq![fv(u.u)] + fvals(u.x@) + fvals(w.w@));
        }
        let mut out: Vec<FVar> = Vec::new();
        for j in 0..self.M.len()
            invariant
                forall|a: int| 0 <= a < self.M@.len() ==> (#[trigger] self.M@[a]).wf(),
                fvals(z@) == seq![fv(u.u)] + fvals(u.x@) + fvals(w.w@),
                out@.len() == j,
                forall|a: int|
                    0 <= a < j ==> fv(#[trigger] out@[a]) == mle_eval(
                        mat_vec(self.M@[a].rows(), fvals(z@)),
                        fvals(u.r_x@),
                    ),
        {
            let mz = match self.M[j].mul_vector(&z) {
                Ok(v) => v,
                Err(e) => {
                    return Err(e);
                },
            };
            let e = match eval_mle(&mz, &u.r_x) {
                Ok(v) => v,
                Err(e) => {
                    return Err(e);
                },
            };
            out.push(e);
        }
        Ok(out)
    }

    /// Enforces that the evaluations equal the instance's claims.
    pub fn enforce_evaluation(u: &LCCCSVar, v: &Vec<FVar>) -> (res: Result<(), Error>) {
        if v.len() != u.v.len() {
            return Err(Error::ShapeMismatch("claim count".to_string()));
        }
        for j in 0..v.len()
            invariant
                v@.len() == u.v@.len(),
        {
            match v[j].enforce_equal(&u.v[j]) {
                Ok(()) => {},
                Err(e) => {
                    return Err(e);
                },
            }
        }
        Ok(())
    }
}

/// The decider-side multifolding gadget: the part of the multifolding
/// verifier that the given sources carry, replayed in-circuit.
pub struct DeciderHyperNovaGadget {}

impl DeciderHyperNovaGadget {
    /// Replays one multifolding step in-circuit: absorbs the parameter
    /// hash first, runs the in-circuit sum-check verifier over the round
    /// polynomials, squeezes the folding challenge bits from the same
    /// transcript and enforces their recomposition equal to the
    /// prover-supplied rho, then folds the scalar parts:
    /// u' = u + rho, x' = x + rho·x₂, v' = sigma + rho·theta, with the
    /// sum-check round challenges as the new evaluation point.  The
    /// consistency equations tying the sum-check's final claim to the
    /// sigmas and thetas, and the folded commitment (deferred to the
    /// auxiliary track), come from the caller.
    pub fn fold_gadget(
        transcript_var: &mut TranscriptVar,
        pp_hash: &FVar,
        big_u: &LCCCSVar,
        small_u: &CCCSVar,
        sum_check_polys: &Vec<DensePolynomialVar>,
        claim_var: &FVar,
        rho: &FVar,
        sigmas: &Vec<FVar>,
        thetas: &Vec<FVar>,
        folded_c: NonNativeAffineVar,
    ) -> (res: Result<LCCCSVar, Error>)
        requires
            forall|k: int|
                0 <= k < sum_check_polys@.len() ==> (#[trigger] sum_check_polys@[k]).coeffs@.len()
                    >= 1,
        ensures
            res matches Ok(out) ==> {
                &&& fv(out.u) == p_add(fv(big_u.u), fv(*rho))
                &&& fvals(out.x@) == vadd(fvals(big_u.x@), vscale(fv(*rho), fvals(small_u.x@)))
                &&& fvals(out.v@) == vadd(fvals(sigmas@), vscale(fv(*rho), fvals(thetas@)))
                &&& out.r_x@.len() == sum_check_polys@.len()
            },
            res is Ok ==> (big_u.x@.len() == small_u.x@.len() && sigmas@.len() == thetas@.len()),
    {
        match transcript_var.absorb(pp_hash) {
            Ok(()) => {},
            Err(e) => {
                return Err(e);
            },
        }
        let (_final_claim, r_x_prime) = match SumCheckVerifierGadget::verify_sumcheck(
            sum_check_polys,
            claim_var,
            transcript_var,
        ) {
            Ok(o) => o,
            Err(e) => {
                return Err(e);
            },
        };
        // the folding challenge is re-derived from the transcript and the
        // prover-supplied rho is enforced to match it
        let rho_bits = match transcript_var.get_challenge_nbits(crate::N_BITS_RO) {
            Ok(b) => b,
            Err(e) => {
                return Err(e);
            },
        };
        let rho_derived = match fvar_from_le_bits(&rho_bits) {
            Ok(v) => v,
            Err(e) => {
                return Err(e);
            },
        };
        match rho.enforce_equal(&rho_derived) {
            Ok(()) => {},
            Err(e) => {
                return Err(e);
            },
        }
        let u_folded = big_u.u.add(rho);
        let rho_x2 = small_u.x.mul_scalar(rho);
        proof {
            assert(rho_x2@.len() == fvals(rho_x2@).len());
            assert(fvals(rho_x2@).len() == fvals(small_u.x@).len());
            assert(fvals(big_u.x@).len() == big_u.x@.len() && fvals(small_u.x@).len()
                == small_u.x@.len());
        }
        let x_folded = match big_u.x.add(&rho_x2) {
            Ok(v) => v,
            Err(e) => {
                return Err(e);
            },
        };
        let rho_thetas = thetas.mul_scalar(rho);
        proof {
            assert(rho_thetas@.len() == fvals(rho_thetas@).len());
            assert(fvals(rho_thetas@).len() == fvals(thetas@).len());
            assert(fvals(sigmas@).len() == sigmas@.len() && fvals(thetas@).len() == thetas@.len());
        }
        let v_folded = match sigmas.add(&rho_thetas) {
            Ok(v) => v,
            Err(e) => {
                return Err(e);
            },
        };
        Ok(LCCCSVar { C: folded_c, u: u_folded, x: x_folded, r_x: r_x_prime, v: v_folded })
    }
}

} // verus!
