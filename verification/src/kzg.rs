//! The KZG10 polynomial commitment over BN254, in non-hiding mode: a
//! trusted-setup commitment key, commitment by multi-scalar multiplication
//! of the coefficients, and a single-point opening proof whose quotient
//! polynomial is computed here by verified synthetic division.  The
//! pairing check of the verifier is the one arkworks call this module
//! trusts.

use vstd::prelude::*;

use crate::curve::{g1_val, g1a_vals, msm, msm_val, G1, G1Affine};
use crate::field::{fr_nat, p_add, p_mul, Fr};
use crate::linalg::vals;
use crate::rng::Rng;
use crate::transcript::{challenge_of, t_cfg, t_hist, Transcript};
use crate::Error;

verus! {

/// The KZG prover key: the powers β^i·g of the trusted setup.
pub struct ProverKey {
    /// Group elements g, β·g, β²·g, …; a polynomial commits against them.
    pub powers_of_g: Vec<G1Affine>,
}

/// A KZG opening proof: the claimed evaluation and the commitment to the
/// quotient polynomial.
pub struct Proof {
    /// The claimed evaluation p(c).
    pub eval: Fr,
    /// The commitment to (p(X) − p(c)) / (X − c).
    pub proof: G1,
}

impl Clone for Proof {
    fn clone(&self) -> (r: Self)
        ensures
            r == *self,
    {
        Proof { eval: self.eval, proof: self.proof }
    }
}

/// The KZG verifier key, as arkworks builds it from the trusted setup.
#[verifier::external_body]
pub struct VerifierKey {
    pub(crate) inner: ark_poly_commit::kzg10::VerifierKey<ark_bn254::Bn254>,
}

impl Clone for VerifierKey {
    /// Relies on the arkworks key being plain data: the clone is the same
    /// key.
    #[verifier::external_body]
    fn clone(&self) -> (r: Self)
        ensures
            r == *self,
    {
        VerifierKey { inner: self.inner.clone() }
    }
}

/// The abstract identifier of a verifier key: equal keys have equal
/// identifiers.
pub uninterp spec fn vk_id(vk: VerifierKey) -> nat;

/// What the arkworks pairing check answers for a verifier key, a
/// commitment, a challenge, a claimed evaluation and a proof point.
pub uninterp spec fn kzg_check_of(vk: nat, cm: nat, c: nat, eval: nat, pi: nat) -> bool;

/// The value at `c` of the polynomial with coefficient sequence `s`
/// (constant term first), by Horner's rule.
pub open spec fn poly_eval(s: Seq<nat>, c: nat) -> nat
    decreases s.len(),
{
    if s.len() == 0 {
        0
    } else if s.len() == 1 {
        s[0]
    } else {
        p_add(s[0], p_mul(c, poly_eval(s.drop_first(), c)))
    }
}

/// The number of coefficients left after dropping trailing zeros: one more
/// than the degree, and 0 for the zero polynomial.
pub open spec fn trimmed_len(s: Seq<nat>) -> nat
    decreases s.len(),
{
    if s.len() == 0 {
        0
    } else if s.last() != 0 {
        s.len()
    } else {
        trimmed_len(s.drop_last())
    }
}

/// The coefficients of the quotient (p(X) − p(c)) / (X − c) for a
/// polynomial with coefficients `s`: the i-th quotient coefficient is the
/// value at `c` of the polynomial shifted down past position i.
pub open spec fn quot_coeffs(s: Seq<nat>, c: nat) -> Seq<nat> {
    Seq::new((s.len() - 1) as nat, |i: int| poly_eval(s.subrange(i + 1, s.len() as int), c))
}

/// Computes the number of coefficients left after dropping trailing
/// zeros.
fn effective_len(v: &Vec<Fr>) -> (r: usize)
    ensures
        r == trimmed_len(vals(v@)),
        r <= v@.len(),
{
    let mut tl = v.len();
    proof {
        assert(vals(v@).take(v@.len() as int) =~= vals(v@));
    }
    while tl > 0 && v[tl - 1].is_zero()
        invariant
            tl <= v@.len(),
            trimmed_len(vals(v@)) == trimmed_len(vals(v@).take(tl as int)),
        decreases tl,
    {
        proof {
            assert(vals(v@).take(tl as int).drop_last() =~= vals(v@).take(tl - 1));
            assert(vals(v@).take(tl as int).last() == fr_nat(v@[tl - 1]));
        }
        tl = tl - 1;
    }
    proof {
        if tl > 0 {
            assert(vals(v@).take(tl as int).last() == fr_nat(v@[tl - 1]));
            assert(trimmed_len(vals(v@).take(tl as int)) == tl);
        } else {
            assert(vals(v@).take(0) =~= Seq::<nat>::empty());
        }
    }
    tl
}

/// Copies the first `n` points of a vector.
fn prefix_points(v: &Vec<G1Affine>, n: usize) -> (r: Vec<G1Affine>)
    requires
        n <= v@.len(),
    ensures
        r@ == v@.take(n as int),
{
    let mut out: Vec<G1Affine> = Vec::new();
    for i in 0..n
        invariant
            n <= v@.len(),
            out@ =~= v@.take(i as int),
    {
        out.push(v[i]);
    }
    proof {
        assert(out@ =~= v@.take(n as int));
    }
    out
}

/// Copies the first `n` scalars of a vector.
fn prefix_scalars(v: &Vec<Fr>, n: usize) -> (r: Vec<Fr>)
    requires
        n <= v@.len(),
    ensures
        r@ == v@.take(n as int),
{
    let mut out: Vec<Fr> = Vec::new();
    for i in 0..n
        invariant
            n <= v@.len(),
            out@ =~= v@.take(i as int),
    {
        out.push(v[i]);
    }
    proof {
        assert(out@ =~= v@.take(n as int));
    }
    out
}

/// Relies on arkworks' KZG10 trusted setup: it draws β and returns the
/// powers β^i·g for i = 0..deg (deg + 1 of them) with the matching
/// verifier key; it only fails for degree 0, which is excluded here.
#[verifier::external_body]
fn kzg_setup_raw(rng: &mut Rng, deg: usize) -> (r: (Vec<G1Affine>, VerifierKey))
    requires
        deg >= 1,
    ensures
        r.0@.len() == deg + 1,
{
    let up = ark_poly_commit::kzg10::KZG10::<
        ark_bn254::Bn254,
        ark_poly::univariate::DensePolynomial<ark_bn254::Fr>,
    >::setup(deg, false, &mut rng.inner).unwrap();
    let powers: Vec<G1Affine> =
        up.powers_of_g.iter().map(|p| G1Affine { inner: *p }).collect();
    let vk = ark_poly_commit::kzg10::VerifierKey {
        g: up.powers_of_g[0],
        gamma_g: up.powers_of_gamma_g[&0],
        h: up.h,
        beta_h: up.beta_h,
        prepared_h: up.prepared_h.clone(),
        prepared_beta_h: up.prepared_beta_h.clone(),
    };
    (powers, VerifierKey { inner: vk })
}

/// Whether a number is a power of two.
pub open spec fn is_pow2(n: nat) -> bool
    decreases n,
{
    if n == 0 {
        false
    } else if n == 1 {
        true
    } else {
        n % 2 == 0 && is_pow2(n / 2)
    }
}

/// The least power of two at or above `n` (and at least 1).
fn next_power_of_two(n: usize) -> (r: usize)
    requires
        1 <= n <= 0x40000000,
    ensures
        is_pow2(r as nat),
        r >= n,
        r < 2 * n,
{
    let mut p: usize = 1;
    while p < n
        invariant
            1 <= n <= 0x40000000,
            1 <= p <= 2 * n,
            p == 1 || p < 2 * n,
            is_pow2(p as nat),
        decreases 2 * n - p,
    {
        p = p * 2;
    }
    p
}



/// Divides the trimmed polynomial by (X − c): returns the quotient
/// coefficients and the remainder, which is the value at c.
fn synthetic_division(v: &Vec<Fr>, tl: usize, c: &Fr) -> (r: (Vec<Fr>, Fr))
    requires
        1 <= tl <= v@.len(),
        tl == trimmed_len(vals(v@)),
    ensures
        vals(r.0@) == quot_coeffs(vals(v@).take(tl as int), fr_nat(*c)),
        fr_nat(r.1) == poly_eval(vals(v@).take(tl as int), fr_nat(*c)),
{
    let ghost s = vals(v@).take(tl as int);
    let mut qrev: Vec<Fr> = Vec::new();
    let mut b: Fr = v[tl - 1];
    let mut i: usize = tl - 1;
    proof {
        assert(s.subrange(tl - 1, tl as int).len() == 1);
        assert(s.subrange(tl - 1, tl as int)[0] == fr_nat(v@[tl - 1]));
    }
    while i > 0
        invariant
            1 <= tl <= v@.len(),
            s == vals(v@).take(tl as int),
            i < tl,
            fr_nat(b) == poly_eval(s.subrange(i as int, tl as int), fr_nat(*c)),
            qrev@.len() == tl - 1 - i,
            forall|j: int|
                0 <= j < qrev@.len() ==> fr_nat(#[trigger] qrev@[j]) == poly_eval(
                    s.subrange(tl - 1 - j, tl as int),
                    fr_nat(*c),
                ),
        decreases i,
    {
        i = i - 1;
        qrev.push(b);
        let t = c.mul(&b);
        b = v[i].add(&t);
        proof {
            let sub = s.subrange(i as int, tl as int);
            assert(sub.len() >= 2);
            assert(sub.drop_first() =~= s.subrange(i + 1, tl as int));
            assert(sub[0] == fr_nat(v@[i as int]));
        }
    }
    let mut q: Vec<Fr> = Vec::new();
    let qlen = tl - 1;
    for k in 0..qlen
        invariant
            qlen == tl - 1,
            qrev@.len() == qlen,
            s == vals(v@).take(tl as int),
            1 <= tl <= v@.len(),
            forall|j: int|
                0 <= j < qrev@.len() ==> fr_nat(#[trigger] qrev@[j]) == poly_eval(
                    s.subrange(tl - 1 - j, tl as int),
                    fr_nat(*c),
                ),
            q@.len() == k,
            forall|j: int|
                0 <= j < k ==> fr_nat(#[trigger] q@[j]) == poly_eval(
                    s.subrange(j + 1, tl as int),
                    fr_nat(*c),
                ),
    {
        q.push(qrev[qlen - 1 - k]);
    }
    proof {
        assert(s.subrange(0, tl as int) =~= s);
        assert(vals(q@) =~= quot_coeffs(s, fr_nat(*c)));
    }
    (q, b)
}





/// Relies on arkworks' KZG10 pairing check
/// e(C − y·g + c·π, h) = e(π, β·h); it never fails, and its answer is a
/// function of the key, the commitment, the challenge, the evaluation and
/// the proof point.
#[verifier::external_body]
fn kzg_check(vk: &VerifierKey, challenge: &Fr, cm: &G1, proof: &Proof) -> (r: bool)
    ensures
        r == kzg_check_of(
            vk_id(*vk),
            g1_val(*cm),
            fr_nat(*challenge),
            fr_nat(proof.eval),
            g1_val(proof.proof),
        ),
{
    ark_poly_commit::kzg10::KZG10::<
        ark_bn254::Bn254,
        ark_poly::univariate::DensePolynomial<ark_bn254::Fr>,
    >::check(
        &vk.inner,
        &ark_poly_commit::kzg10::Commitment(ark_ec::CurveGroup::into_affine(cm.inner)),
        challenge.inner,
        proof.eval.inner,
        &ark_poly_commit::kzg10::Proof {
            w: ark_ec::CurveGroup::into_affine(proof.proof.inner),
            random_v: None,
        },
    ).unwrap()
}

/// The KZG10 commitment scheme over BN254, in non-hiding mode.
pub struct KZG {}

impl KZG {
    /// Runs the trusted setup for polynomials of length up to `len`, rounded
    /// up to a power of two; the key holds one extra power, so a polynomial
    /// of degree exactly that length still commits.
    pub fn setup(rng: &mut Rng, len: usize) -> (r: Result<(ProverKey, VerifierKey), Error>)
        ensures
            (1 <= len <= 0x40000000) <==> r is Ok,
            r matches Ok(k) ==> is_pow2((k.0.powers_of_g@.len() - 1) as nat) && k.0.powers_of_g@.len()
                >= len + 1,
            r matches Err(e) ==> e is OutOfBounds,
    {
        if len == 0 || len > 0x40000000 {
            return Err(Error::OutOfBounds);
        }
        let deg = next_power_of_two(len);
        let (powers, vk) = kzg_setup_raw(rng, deg);
        Ok((ProverKey { powers_of_g: powers }, vk))
    }

    /// Commits to the polynomial with coefficient vector `v` (constant term
    /// first).  The scheme is non-hiding: a non-zero blinding factor is
    /// rejected with `HidingNotSupported`; a polynomial of degree at or above
    /// the key length is rejected with `PolynomialTooLarge`.
    pub fn commit(pk: &ProverKey, v: &Vec<Fr>, blind: &Fr) -> (r: Result<G1, Error>)
        ensures
            r is Ok <==> (fr_nat(*blind) == 0 && trimmed_len(vals(v@)) <= pk.powers_of_g@.len()),
            r matches Ok(c) ==> {
                let tl = trimmed_len(vals(v@)) as int;
                g1_val(c) == if tl == 0 {
                    0
                } else {
                    msm_val(g1a_vals(pk.powers_of_g@).take(tl), vals(v@).take(tl))
                }
            },
            r matches Err(e) ==> {
                &&& e is HidingNotSupported <==> fr_nat(*blind) != 0
                &&& e is PolynomialTooLarge <==> (fr_nat(*blind) == 0 && trimmed_len(vals(v@))
                    > pk.powers_of_g@.len())
            },
    {
        if !blind.is_zero() {
            return Err(Error::HidingNotSupported);
        }
        let tl = effective_len(v);
        if tl > pk.powers_of_g.len() {
            return Err(Error::PolynomialTooLarge(tl, pk.powers_of_g.len()));
        }
        if tl == 0 {
            return Ok(G1::zero());
        }
        let gens = prefix_points(&pk.powers_of_g, tl);
        let coeffs = prefix_scalars(v, tl);
        let c = msm(&gens, &coeffs);
        proof {
            assert(g1a_vals(gens@) =~= g1a_vals(pk.powers_of_g@).take(tl as int));
            assert(vals(coeffs@) =~= vals(v@).take(tl as int));
        }
        Ok(c)
    }

    /// Produces an opening proof at a given challenge: the evaluation p(c)
    /// and the commitment to the quotient (p(X) − p(c)) / (X − c), computed
    /// by synthetic division.  Non-hiding: a non-zero blinding factor is
    /// rejected; an oversized polynomial is rejected.
    pub fn prove_with_challenge(pk: &ProverKey, challenge: &Fr, v: &Vec<Fr>, blind: &Fr) -> (r:
        Result<Proof, Error>)
        ensures
            r is Ok <==> (fr_nat(*blind) == 0 && trimmed_len(vals(v@)) <= pk.powers_of_g@.len()),
            r matches Ok(p) ==> {
                let tl = trimmed_len(vals(v@)) as int;
                &&& fr_nat(p.eval) == poly_eval(vals(v@).take(tl), fr_nat(*challenge))
                &&& g1_val(p.proof) == if tl <= 1 {
                    0
                } else {
                    msm_val(
                        g1a_vals(pk.powers_of_g@).take(tl - 1),
                        quot_coeffs(vals(v@).take(tl), fr_nat(*challenge)),
                    )
                }
            },
            r matches Err(e) ==> {
                &&& e is HidingNotSupported <==> fr_nat(*blind) != 0
                &&& e is PolynomialTooLarge <==> (fr_nat(*blind) == 0 && trimmed_len(vals(v@))
                    > pk.powers_of_g@.len())
            },
    {
        if !blind.is_zero() {
            return Err(Error::HidingNotSupported);
        }
        let tl = effective_len(v);
        if tl > pk.powers_of_g.len() {
            return Err(Error::PolynomialTooLarge(tl, pk.powers_of_g.len()));
        }
        if tl == 0 {
            return Ok(Proof { eval: Fr::zero(), proof: G1::zero() });
        }
        let (q, eval) = synthetic_division(v, tl, challenge);
        if tl == 1 {
            return Ok(Proof { eval, proof: G1::zero() });
        }
        let gens = prefix_points(&pk.powers_of_g, tl - 1);
        proof {
            assert(q@.len() == vals(q@).len());
            assert(gens@.len() == tl - 1);
        }
        let pi = msm(&gens, &q);
        proof {
            assert(g1a_vals(gens@) =~= g1a_vals(pk.powers_of_g@).take(tl - 1));
        }
        Ok(Proof { eval, proof: pi })
    }

    /// Produces an opening proof at the challenge squeezed from the
    /// transcript after absorbing the commitment.
    pub fn prove(
        pk: &ProverKey,
        transcript: &mut Transcript,
        cm: &G1,
        v: &Vec<Fr>,
        blind: &Fr,
    ) -> (r: Result<Proof, Error>)
        ensures
            r is Ok <==> (fr_nat(*blind) == 0 && trimmed_len(vals(v@)) <= pk.powers_of_g@.len()),
            r matches Ok(p) ==> fr_nat(p.eval) == poly_eval(
                vals(v@).take(trimmed_len(vals(v@)) as int),
                challenge_of(
                    t_cfg(*old(transcript)),
                    t_hist(*old(transcript)) + crate::transcript::absorbed(
                        crate::nonnative::point_x_limbs(g1_val(*cm)),
                    ) + crate::transcript::absorbed(crate::nonnative::point_y_limbs(g1_val(*cm))),
                ),
            ),
    {
        transcript.absorb_point(cm);
        let challenge = transcript.get_challenge();
        KZG::prove_with_challenge(pk, &challenge, v, blind)
    }

    /// Verifies an opening proof at a given challenge with the arkworks
    /// pairing check; rejects with `CommitmentVerificationFail` exactly when
    /// the check answers no.
    pub fn verify_with_challenge(vk: &VerifierKey, challenge: &Fr, cm: &G1, proof: &Proof) -> (r:
        Result<(), Error>)
        ensures
            r is Ok <==> kzg_check_of(
                vk_id(*vk),
                g1_val(*cm),
                fr_nat(*challenge),
                fr_nat(proof.eval),
                g1_val(proof.proof),
            ),
            r matches Err(e) ==> e is CommitmentVerificationFail,
    {
        if kzg_check(vk, challenge, cm, proof) {
            Ok(())
        } else {
            Err(Error::CommitmentVerificationFail)
        }
    }

    /// Verifies an opening proof at the challenge squeezed from the
    /// transcript after absorbing the commitment, as the prover derived it.
    pub fn verify(vk: &VerifierKey, transcript: &mut Transcript, cm: &G1, proof: &Proof) -> (r:
        Result<(), Error>)
        ensures
            r is Ok <==> kzg_check_of(
                vk_id(*vk),
                g1_val(*cm),
                challenge_of(
                    t_cfg(*old(transcript)),
                    t_hist(*old(transcript)) + crate::transcript::absorbed(
                        crate::nonnative::point_x_limbs(g1_val(*cm)),
                    ) + crate::transcript::absorbed(crate::nonnative::point_y_limbs(g1_val(*cm))),
                ),
                fr_nat(proof.eval),
                g1_val(proof.proof),
            ),
            r matches Err(e) ==> e is CommitmentVerificationFail,
    {
        transcript.absorb_point(cm);
        let challenge = transcript.get_challenge();
        KZG::verify_with_challenge(vk, &challenge, cm, proof)
    }

}

} // verus!
