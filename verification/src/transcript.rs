//! The Fiat–Shamir transcript: a Poseidon duplex sponge that absorbs
//! scalar-field elements (and curve points through their non-native limbs)
//! and squeezes challenges.
//!
//! The model of a transcript is its configuration together with the history
//! of operations performed on it: an absorbed element is recorded as its
//! representative, a squeeze as a negative marker.  Every challenge is a
//! function `challenge_of` of the configuration and the history alone, so
//! two transcripts driven identically yield identical challenges.

use vstd::prelude::*;

use crate::curve::{g1_val, G1};
use crate::field::{fr_nat, Fr};
use crate::linalg::vals;
use crate::nonnative::{point_to_nonnative_limbs, point_x_limbs, point_y_limbs};

verus! {

/// A Poseidon permutation configuration over the scalar field.
#[verifier::external_body]
pub struct PoseidonConfig {
    pub(crate) inner: ark_crypto_primitives::sponge::poseidon::PoseidonConfig<ark_bn254::Fr>,
}

impl Clone for PoseidonConfig {
    /// Relies on the arkworks configuration being plain data: the clone is
    /// the same configuration.
    #[verifier::external_body]
    fn clone(&self) -> (r: Self)
        ensures
            r == *self,
    {
        PoseidonConfig { inner: self.inner.clone() }
    }
}

/// The abstract identifier of a Poseidon configuration: equal
/// configurations have equal identifiers.
pub uninterp spec fn cfg_id(c: PoseidonConfig) -> nat;

/// The marker recorded in the history for squeezing one field element.
pub open spec fn squeeze_marker() -> int {
    -1
}

/// The marker recorded in the history for squeezing a given number of
/// bits.
pub open spec fn squeeze_bits_marker(n: nat) -> int {
    -2 - n
}

/// The history entries of a sequence of absorbed field elements.
pub open spec fn absorbed(s: Seq<nat>) -> Seq<int> {
    s.map_values(|x: nat| x as int)
}

/// What squeezing one field element returns, as a function of the
/// configuration and the history up to the squeeze.
pub uninterp spec fn challenge_of(cfg: nat, hist: Seq<int>) -> nat;

/// What squeezing n bits returns, little-endian, as a function of the
/// configuration, the history up to the squeeze, and n.
pub uninterp spec fn challenge_bits_of(cfg: nat, hist: Seq<int>, n: nat) -> Seq<bool>;

/// The duplex-sponge transcript.
#[verifier::external_body]
pub struct Transcript {
    pub(crate) sponge: ark_crypto_primitives::sponge::poseidon::PoseidonSponge<ark_bn254::Fr>,
}

/// The configuration a transcript was built with.
pub uninterp spec fn t_cfg(t: Transcript) -> nat;

/// The history of a transcript: absorbed representatives and squeeze
/// markers, in order.
pub uninterp spec fn t_hist(t: Transcript) -> Seq<int>;

impl Transcript {
    /// Relies on the arkworks Poseidon sponge constructor: a fresh sponge
    /// has seen nothing.
    #[verifier::external_body]
    pub fn new(cfg: &PoseidonConfig) -> (t: Transcript)
        ensures
            t_cfg(t) == cfg_id(*cfg),
            t_hist(t) == Seq::<int>::empty(),
    {
        Transcript {
            sponge: <ark_crypto_primitives::sponge::poseidon::PoseidonSponge<
                ark_bn254::Fr,
            > as ark_crypto_primitives::sponge::CryptographicSponge>::new(&cfg.inner),
        }
    }

    /// Relies on the arkworks sponge absorb of one field element: the
    /// sponge state afterwards depends only on the state before and the
    /// element.
    #[verifier::external_body]
    pub fn absorb(&mut self, x: &Fr)
        ensures
            t_cfg(*final(self)) == t_cfg(*old(self)),
            t_hist(*final(self)) == t_hist(*old(self)).push(fr_nat(*x) as int),
    {
        ark_crypto_primitives::sponge::CryptographicSponge::absorb(&mut self.sponge, &x.inner);
    }

    /// Absorbs a vector of field elements, in order.
    pub fn absorb_vec(&mut self, xs: &Vec<Fr>)
        ensures
            t_cfg(*final(self)) == t_cfg(*old(self)),
            t_hist(*final(self)) == t_hist(*old(self)) + absorbed(vals(xs@)),
    {
        let ghost c0 = t_cfg(*self);
        let ghost h0 = t_hist(*self);
        for i in 0..xs.len()
            invariant
                t_cfg(*self) == c0,
                t_hist(*self) =~= h0 + absorbed(vals(xs@.take(i as int))),
        {
            self.absorb(&xs[i]);
            proof {
                assert(absorbed(vals(xs@.take(i + 1))) =~= absorbed(vals(xs@.take(i as int))).push(
                    fr_nat(xs@[i as int]) as int,
                ));
            }
        }
        proof {
            assert(xs@.take(xs@.len() as int) =~= xs@);
        }
    }

    /// Absorbs a point of C1 through its non-native limb representation:
    /// the x limbs, then the y limbs.
    pub fn absorb_point(&mut self, p: &G1)
        ensures
            t_cfg(*final(self)) == t_cfg(*old(self)),
            t_hist(*final(self)) == t_hist(*old(self)) + absorbed(point_x_limbs(g1_val(*p)))
                + absorbed(point_y_limbs(g1_val(*p))),
    {
        let (x, y) = point_to_nonnative_limbs(p);
        self.absorb_vec(&x);
        self.absorb_vec(&y);
    }

    /// Relies on the arkworks sponge squeeze of one field element: the
    /// value squeezed depends only on the configuration and the state, and
    /// the squeeze advances the state.
    #[verifier::external_body]
    pub fn get_challenge(&mut self) -> (r: Fr)
        ensures
            t_cfg(*final(self)) == t_cfg(*old(self)),
            t_hist(*final(self)) == t_hist(*old(self)).push(squeeze_marker()),
            fr_nat(r) == challenge_of(t_cfg(*old(self)), t_hist(*old(self))),
    {
        let out = ark_crypto_primitives::sponge::CryptographicSponge::squeeze_field_elements::<
            ark_bn254::Fr,
        >(&mut self.sponge, 1);
        Fr { inner: out[0] }
    }

    /// Relies on the arkworks sponge squeeze of n bits: the bits squeezed
    /// depend only on the configuration, the state and n, and the squeeze
    /// advances the state.
    #[verifier::external_body]
    pub fn get_challenge_nbits(&mut self, n: usize) -> (r: Vec<bool>)
        ensures
            t_cfg(*final(self)) == t_cfg(*old(self)),
            t_hist(*final(self)) == t_hist(*old(self)).push(squeeze_bits_marker(n as nat)),
            r@ == challenge_bits_of(t_cfg(*old(self)), t_hist(*old(self)), n as nat),
            r@.len() == n,
    {
        ark_crypto_primitives::sponge::CryptographicSponge::squeeze_bits(&mut self.sponge, n)
    }
}

/// What the Poseidon hash H returns on a packed input: a fresh sponge with
/// the same configuration absorbs the input and squeezes one element, so
/// the hash is the challenge of that one-shot history.
pub open spec fn poseidon_of(cfg: nat, input: Seq<nat>) -> nat {
    challenge_of(cfg, absorbed(input))
}

/// Relies on the arkworks Poseidon CRH, whose evaluation absorbs the input
/// into a fresh sponge of the given configuration and squeezes one
/// element; it never fails.
#[verifier::external_body]
pub fn poseidon_hash(cfg: &PoseidonConfig, input: &Vec<Fr>) -> (r: Fr)
    ensures
        fr_nat(r) == poseidon_of(cfg_id(*cfg), vals(input@)),
{
    let elems: Vec<ark_bn254::Fr> = input.iter().map(|x| x.inner).collect();
    let out = <ark_crypto_primitives::crh::poseidon::CRH<
        ark_bn254::Fr,
    > as ark_crypto_primitives::crh::CRHScheme>::evaluate(&cfg.inner, elems.as_slice()).unwrap();
    Fr { inner: out }
}

/// Relies on arkworks' Poseidon parameter search, which deterministically
/// derives round constants and an MDS matrix for the given arity and round
/// numbers.
#[verifier::external_body]
fn find_ark_and_mds(rate: u64, full_rounds: u64, partial_rounds: u64) -> (Vec<Vec<Fr>>, Vec<
    Vec<Fr>,
>) {
    let (ark, mds) = ark_crypto_primitives::sponge::poseidon::find_poseidon_ark_and_mds::<
        ark_bn254::Fr,
    >(254, rate as usize, full_rounds, partial_rounds, 0);
    (
        ark.into_iter().map(|row| row.into_iter().map(|x| Fr { inner: x }).collect()).collect(),
        mds.into_iter().map(|row| row.into_iter().map(|x| Fr { inner: x }).collect()).collect(),
    )
}

/// Relies on the arkworks Poseidon configuration constructor, which packs
/// the given parameters.
#[verifier::external_body]
fn poseidon_config_new(
    full_rounds: usize,
    partial_rounds: usize,
    alpha: u64,
    mds: Vec<Vec<Fr>>,
    ark: Vec<Vec<Fr>>,
    rate: usize,
) -> PoseidonConfig {
    PoseidonConfig {
        inner: ark_crypto_primitives::sponge::poseidon::PoseidonConfig::new(
            full_rounds,
            partial_rounds,
            alpha,
            mds.into_iter().map(|row| row.into_iter().map(|x| x.inner).collect()).collect(),
            ark.into_iter().map(|row| row.into_iter().map(|x| x.inner).collect()).collect(),
            rate,
            1,
        ),
    }
}

/// The Poseidon configuration the library uses by default: rate 2,
/// capacity 1, 8 full and 60 partial rounds, alpha 5.
pub fn poseidon_canonical_config() -> PoseidonConfig {
    let (ark, mds) = find_ark_and_mds(2, 8, 60);
    poseidon_config_new(8, 60, 5, mds, ark, 2)
}

/// A lighter Poseidon configuration for tests: rate 2, capacity 1, 8 full
/// and 31 partial rounds, alpha 5.
pub fn poseidon_test_config() -> PoseidonConfig {
    let (ark, mds) = find_ark_and_mds(2, 8, 31);
    poseidon_config_new(8, 31, 5, mds, ark, 2)
}

/// Two transcripts with the same configuration that absorbed and squeezed
/// the same sequence answer the same challenge: a challenge is a function
/// of the configuration and the history alone.
pub proof fn lemma_transcript_determinism(t1: Transcript, t2: Transcript)
    requires
        t_cfg(t1) == t_cfg(t2),
        t_hist(t1) == t_hist(t2),
    ensures
        challenge_of(t_cfg(t1), t_hist(t1)) == challenge_of(t_cfg(t2), t_hist(t2)),
        forall|n: nat|
            challenge_bits_of(t_cfg(t1), t_hist(t1), n) == challenge_bits_of(
                t_cfg(t2),
                t_hist(t2),
                n,
            ),
{
}

} // verus!
