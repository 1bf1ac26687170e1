//! The in-circuit sum-check verifier: univariate round polynomials as
//! vectors of circuit variables, and the round loop that checks
//! p(0) + p(1) = claim, absorbs the round polynomial, squeezes the round
//! challenge and carries p(challenge) into the next round.

use vstd::prelude::*;

use crate::field::{p_add, p_mul, Fr};
use crate::linalg::vals;
use crate::r1cs_var::{circuit_challenge_of, fv, fvals, tv_cfg, tv_hist, CsRef, FVar, TranscriptVar};
use crate::transcript::{absorbed, squeeze_marker};
use crate::Error;

verus! {

/// The sum of a sequence of representatives, accumulated left to right.
pub open spec fn seq_sum(s: Seq<nat>) -> nat
    decreases s.len(),
{
    if s.len() == 0 {
        0
    } else if s.len() == 1 {
        s[0]
    } else {
        p_add(seq_sum(s.drop_last()), s.last())
    }
}

/// c^k under the modulus, with c^1 = c unreduced.
pub open spec fn pow_m(c: nat, k: nat) -> nat
    decreases k,
{
    if k == 0 {
        1
    } else if k == 1 {
        c
    } else {
        p_mul(pow_m(c, (k - 1) as nat), c)
    }
}

/// The value of the polynomial with coefficients `s` at `c`, as the sum
/// of cᵢ·cʰᵃˡᵉⁿᵍᵉ^i accumulated left to right.
pub open spec fn powersum_eval(s: Seq<nat>, c: nat) -> nat
    decreases s.len(),
{
    if s.len() == 0 {
        0
    } else if s.len() == 1 {
        s[0]
    } else {
        p_add(powersum_eval(s.drop_last(), c), p_mul(pow_m(c, (s.len() - 1) as nat), s.last()))
    }
}

/// The transcript history after k sum-check rounds: each round absorbs
/// its polynomial's coefficients and squeezes one challenge.
pub open spec fn sumcheck_hist(h0: Seq<int>, polys: Seq<Seq<nat>>, k: int) -> Seq<int>
    decreases k,
{
    if k <= 0 {
        h0
    } else {
        sumcheck_hist(h0, polys, k - 1) + absorbed(polys[k - 1]) + seq![squeeze_marker()]
    }
}

/// The coefficient values of a list of round polynomials.
pub open spec fn poly_vals(polys: Seq<DensePolynomialVar>) -> Seq<Seq<nat>> {
    polys.map_values(|p: DensePolynomialVar| fvals(p.coeffs@))
}

/// A univariate round polynomial held as circuit variables, constant
/// coefficient first.
pub struct DensePolynomialVar {
    /// The coefficients.
    pub coeffs: Vec<FVar>,
}

impl DensePolynomialVar {
    /// Allocates the coefficients of a round polynomial as witnesses.
    pub fn new_witness(cs: &CsRef, coeffs: &Vec<Fr>) -> (r: Result<DensePolynomialVar, Error>)
        ensures
            r matches Ok(p) ==> fvals(p.coeffs@) == vals(coeffs@),
    {
        let c = match crate::augmented::witness_vec(cs, coeffs) {
            Ok(c) => c,
            Err(e) => {
                return Err(e);
            },
        };
        Ok(DensePolynomialVar { coeffs: c })
    }

    /// The value at 0: the constant coefficient.
    pub fn eval_at_zero(&self) -> (r: FVar)
        requires
            self.coeffs@.len() >= 1,
        ensures
            fv(r) == fv(self.coeffs@[0]),
    {
        self.coeffs[0].clone()
    }

    /// The value at 1: the sum of the coefficients.
    pub fn eval_at_one(&self) -> (r: FVar)
        requires
            self.coeffs@.len() >= 1,
        ensures
            fv(r) == seq_sum(fvals(self.coeffs@)),
    {
        let mut res = self.coeffs[0].clone();
        for i in 1..self.coeffs.len()
            invariant
                1 <= i <= self.coeffs@.len(),
                fv(res) == seq_sum(fvals(self.coeffs@).take(i as int)),
        {
            res = res.add(&self.coeffs[i]);
            proof {
                assert(fvals(self.coeffs@).take(i + 1).drop_last() =~= fvals(
                    self.coeffs@,
                ).take(i as int));
            }
        }
        proof {
            assert(fvals(self.coeffs@).take(self.coeffs@.len() as int) =~= fvals(self.coeffs@));
        }
        res
    }

    /// The value at the variable `r`: c₀ + c₁·r + c₂·r² + …, computed
    /// with an accumulated power.
    pub fn evaluate(&self, r: &FVar) -> (res: FVar)
        requires
            self.coeffs@.len() >= 1,
        ensures
            fv(res) == powersum_eval(fvals(self.coeffs@), fv(*r)),
    {
        let mut eval = self.coeffs[0].clone();
        let mut power = r.clone();
        for i in 1..self.coeffs.len()
            invariant
                1 <= i <= self.coeffs@.len(),
                fv(eval) == powersum_eval(fvals(self.coeffs@).take(i as int), fv(*r)),
                fv(power) == pow_m(fv(*r), i as nat),
        {
            let term = power.mul(&self.coeffs[i]);
            eval = eval.add(&term);
            power = power.mul(r);
            proof {
                assert(fvals(self.coeffs@).take(i + 1).drop_last() =~= fvals(
                    self.coeffs@,
                ).take(i as int));
                assert(pow_m(fv(*r), (i + 1) as nat) == p_mul(pow_m(fv(*r), i as nat), fv(*r)));
            }
        }
        proof {
            assert(fvals(self.coeffs@).take(self.coeffs@.len() as int) =~= fvals(self.coeffs@));
        }
        eval
    }
}

/// The in-circuit sum-check verifier.
pub struct SumCheckVerifierGadget {}

impl SumCheckVerifierGadget {
    /// Verifies a sum-check proof in-circuit: for each round polynomial
    /// it enforces p(0) + p(1) equal to the running claim, absorbs the
    /// coefficients into the in-circuit transcript, squeezes the round
    /// challenge, and evaluates the polynomial there as the next claim.
    /// Returns the final claim and the round challenges; with no rounds
    /// the claim comes back unchanged.
    pub fn verify_sumcheck(
        poly_vars: &Vec<DensePolynomialVar>,
        claim_var: &FVar,
        transcript_var: &mut TranscriptVar,
    ) -> (res: Result<(FVar, Vec<FVar>), Error>)
        requires
            forall|k: int|
                0 <= k < poly_vars@.len() ==> (#[trigger] poly_vars@[k]).coeffs@.len() >= 1,
        ensures
            res matches Ok(out) ==> {
                &&& out.1@.len() == poly_vars@.len()
                &&& poly_vars@.len() == 0 ==> fv(out.0) == fv(*claim_var)
                &&& poly_vars@.len() >= 1 ==> fv(out.0) == powersum_eval(
                    fvals(poly_vars@.last().coeffs@),
                    fv(out.1@.last()),
                )
                &&& tv_cfg(*final(transcript_var)) == tv_cfg(*old(transcript_var))
                &&& tv_hist(*final(transcript_var)) == sumcheck_hist(
                    tv_hist(*old(transcript_var)),
                    poly_vals(poly_vars@),
                    poly_vars@.len() as int,
                )
                &&& forall|k: int|
                    0 <= k < poly_vars@.len() ==> fv(#[trigger] out.1@[k])
                        == circuit_challenge_of(
                        tv_cfg(*old(transcript_var)),
                        sumcheck_hist(tv_hist(*old(transcript_var)), poly_vals(poly_vars@), k)
                            + absorbed(fvals(poly_vars@[k].coeffs@)),
                    )
            },
            res matches Err(e) ==> e is Other,
    {
        let ghost c0 = tv_cfg(*transcript_var);
        let ghost h0 = tv_hist(*transcript_var);
        let mut e_var = claim_var.clone();
        let mut r_vars: Vec<FVar> = Vec::new();
        for k in 0..poly_vars.len()
            invariant
                forall|j: int|
                    0 <= j < poly_vars@.len() ==> (#[trigger] poly_vars@[j]).coeffs@.len() >= 1,
                r_vars@.len() == k,
                k == 0 ==> fv(e_var) == fv(*claim_var),
                k >= 1 ==> fv(e_var) == powersum_eval(
                    fvals(poly_vars@[k - 1].coeffs@),
                    fv(r_vars@[k - 1]),
                ),
                tv_cfg(*transcript_var) == c0,
                tv_hist(*transcript_var) =~= sumcheck_hist(h0, poly_vals(poly_vars@), k as int),
                forall|j: int|
                    0 <= j < k ==> fv(#[trigger] r_vars@[j]) == circuit_challenge_of(
                        c0,
                        sumcheck_hist(h0, poly_vals(poly_vars@), j) + absorbed(
                            fvals(poly_vars@[j].coeffs@),
                        ),
                    ),
        {
            let poly = &poly_vars[k];
            let res = poly.eval_at_one().add(&poly.eval_at_zero());
            match res.enforce_equal(&e_var) {
                Ok(()) => {},
                Err(e) => {
                    return Err(e);
                },
            }
            match transcript_var.absorb_vec(&poly.coeffs) {
                Ok(()) => {},
                Err(e) => {
                    return Err(e);
                },
            }
            let r_i = match transcript_var.get_challenge() {
                Ok(r) => r,
                Err(e) => {
                    return Err(e);
                },
            };
            r_vars.push(r_i.clone());
            e_var = poly.evaluate(&r_i);
            proof {
                assert(poly_vals(poly_vars@)[k as int] == fvals(poly_vars@[k as int].coeffs@));
                assert(tv_hist(*transcript_var) =~= sumcheck_hist(
                    h0,
                    poly_vals(poly_vars@),
                    k + 1,
                ));
            }
        }
        Ok((e_var, r_vars))
    }
}

} // verus!
