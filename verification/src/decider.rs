//! The onchain (EVM-targeted) decider verifier: one final fold of the
//! commitments, a Groth16 check of the decider circuit over the public
//! input vector, two KZG opening checks, and the fixed-order big-endian
//! calldata encoding the contract consumes.  The prover side builds the
//! Groth16 proof over the decider circuit and lives outside the verified
//! library; this module checks its output.

use vstd::prelude::*;

use crate::curve::{g1_val, g1a_val, gadd, gmul, xcoord_of, ycoord_of, G1, G1Affine};
use crate::field::{fq_be_bytes, fr_be_bytes, fr_nat, fr_to_be_bytes, fq_to_be_bytes, p_mul, Fr};
use crate::field::fr_from_le_bits;
use crate::frontend::FCircuit;
use crate::ivc::{nova_fold_challenge, IVC};
use crate::kzg::{kzg_check_of, poly_eval, trimmed_len, vk_id, Proof as KZGProof, ProverKey, VerifierKey, KZG};
use crate::linalg::{vadd, vscale};
use crate::nova::{absorb_instance, cross_term, fold_committed_instance, fold_witness, instance_absorption, relaxed_z, Witness};
use crate::pedersen::{pedersen_commit, pedersen_commit_val};
use crate::transcript::{absorbed, cfg_id, challenge_of, Transcript};
use crate::curve::g1a_vals;
use crate::field::p_add;
use crate::nonnative::{point_x_limbs as px, point_y_limbs as py};
use crate::linalg::vals;
use crate::nonnative::point_to_nonnative_limbs;
use crate::nova::CommittedInstance;
use crate::Error;

verus! {

/// A Groth16 proof over BN254, as the SNARK backend produces it.
#[verifier::external_body]
pub struct Groth16Proof {
    pub(crate) inner: ark_groth16::Proof<ark_bn254::Bn254>,
}

impl Clone for Groth16Proof {
    /// Relies on the arkworks proof being plain data: the clone is the
    /// same proof.
    #[verifier::external_body]
    fn clone(&self) -> (r: Self)
        ensures
            r == *self,
    {
        Groth16Proof { inner: self.inner.clone() }
    }
}

/// A Groth16 verifying key over BN254.
#[verifier::external_body]
pub struct Groth16VerifyingKey {
    pub(crate) inner: ark_groth16::VerifyingKey<ark_bn254::Bn254>,
}

impl Clone for Groth16VerifyingKey {
    /// Relies on the arkworks key being plain data: the clone is the same
    /// key.
    #[verifier::external_body]
    fn clone(&self) -> (r: Self)
        ensures
            r == *self,
    {
        Groth16VerifyingKey { inner: self.inner.clone() }
    }
}

/// A point of the twist curve C2' in affine coordinates, as it appears in
/// a Groth16 proof.
#[verifier::external_body]
pub struct G2Affine {
    pub(crate) inner: ark_bn254::G2Affine,
}

impl Clone for G2Affine {
    /// Relies on the arkworks point being a plain value.
    #[verifier::external_body]
    fn clone(&self) -> (r: Self)
        ensures
            r == *self,
    {
        G2Affine { inner: self.inner }
    }
}

impl Copy for G2Affine {}

/// The abstract identifier of a Groth16 proof: equal proofs have equal
/// identifiers.
pub uninterp spec fn g16p_id(p: Groth16Proof) -> nat;

/// The abstract identifier of a Groth16 verifying key.
pub uninterp spec fn g16vk_id(vk: Groth16VerifyingKey) -> nat;

/// The abstract identifier of a twist-curve point.
pub uninterp spec fn g2a_val(p: G2Affine) -> nat;

/// What the Groth16 verifier answers for a key, a public input vector and
/// a proof.
pub uninterp spec fn groth16_accepts(vk: nat, input: Seq<nat>, proof: nat) -> bool;

/// Whether the Groth16 verifier answers at all for a key and a public
/// input vector: it fails exactly when the input does not fit the key,
/// which depends on nothing else.
pub uninterp spec fn groth16_answers(vk: nat, input: Seq<nat>) -> bool;

/// The first proof element A, as a function of the proof.
pub uninterp spec fn g16_a_of(proof: nat) -> nat;

/// The second proof element B, as a function of the proof.
pub uninterp spec fn g16_b_of(proof: nat) -> nat;

/// The third proof element C, as a function of the proof.
pub uninterp spec fn g16_c_of(proof: nat) -> nat;

/// The EVM encoding of a twist-curve point: 4 × 32 big-endian bytes with
/// each coordinate's extension parts ordered (c1, c0).
pub uninterp spec fn g2_eth_bytes(p: nat) -> Seq<u8>;

/// What the canonical compressed serialization of a Groth16 proof is, as
/// a function of the proof.
pub uninterp spec fn g16p_bytes(p: nat) -> Seq<u8>;

/// The proof the compressed decoder reads from a byte string.
pub uninterp spec fn g16p_of_bytes(b: Seq<u8>) -> nat;

/// What the canonical compressed serialization of a Groth16 verifying
/// key is, as a function of the key.
pub uninterp spec fn g16vk_bytes(vk: nat) -> Seq<u8>;

/// The verifying key the compressed decoder reads from a byte string.
pub uninterp spec fn g16vk_of_bytes(b: Seq<u8>) -> nat;

impl Groth16Proof {
    /// Relies on ark_serialize's canonical compressed encoding: a
    /// function of the proof, and the decoder reads the proof back from
    /// it.
    #[verifier::external_body]
    pub fn to_bytes(&self) -> (r: Vec<u8>)
        ensures
            r@ == g16p_bytes(g16p_id(*self)),
            g16p_of_bytes(r@) == g16p_id(*self),
    {
        let mut out = Vec::new();
        ark_serialize::CanonicalSerialize::serialize_compressed(&self.inner, &mut out).unwrap();
        out
    }

    /// Relies on ark_serialize's compressed decoding with validation: the
    /// decoder is deterministic in the bytes.  It accepts some
    /// non-canonical strings (infinity-flagged point components with
    /// arbitrary coordinate bytes, trailing bytes), so nothing here says
    /// an accepted input is canonical.
    #[verifier::external_body]
    pub fn from_bytes(bytes: &Vec<u8>) -> (r: Result<Groth16Proof, Error>)
        ensures
            r matches Ok(p) ==> g16p_id(p) == g16p_of_bytes(bytes@),
    {
        match ark_serialize::CanonicalDeserialize::deserialize_compressed(bytes.as_slice()) {
            Ok(p) => Ok(Groth16Proof { inner: p }),
            Err(_) => Err(Error::SerializationError),
        }
    }
}

impl Groth16VerifyingKey {
    /// Relies on ark_serialize's canonical compressed encoding: a
    /// function of the key, and the decoder reads the key back from it.
    #[verifier::external_body]
    pub fn to_bytes(&self) -> (r: Vec<u8>)
        ensures
            r@ == g16vk_bytes(g16vk_id(*self)),
            g16vk_of_bytes(r@) == g16vk_id(*self),
    {
        let mut out = Vec::new();
        ark_serialize::CanonicalSerialize::serialize_compressed(&self.inner, &mut out).unwrap();
        out
    }

    /// Relies on ark_serialize's compressed decoding with validation: the
    /// decoder is deterministic in the bytes.  As with the proof, an
    /// accepted input need not be canonical, and nothing here says so.
    #[verifier::external_body]
    pub fn from_bytes(bytes: &Vec<u8>) -> (r: Result<Groth16VerifyingKey, Error>)
        ensures
            r matches Ok(vk) ==> g16vk_id(vk) == g16vk_of_bytes(bytes@),
    {
        match ark_serialize::CanonicalDeserialize::deserialize_compressed(bytes.as_slice()) {
            Ok(vk) => Ok(Groth16VerifyingKey { inner: vk }),
            Err(_) => Err(Error::SerializationError),
        }
    }
}

/// Relies on the arkworks Groth16 verifier/// Relies on the arkworks Groth16 verifier (through the SNARK
/// interface): its answer is a function of the key, the public inputs
/// and the proof; it fails only on malformed inputs.
#[verifier::external_body]
pub fn groth16_verify(
    vk: &Groth16VerifyingKey,
    public_input: &Vec<Fr>,
    proof: &Groth16Proof,
) -> (r: Result<bool, Error>)
    ensures
        r is Ok <==> groth16_answers(g16vk_id(*vk), vals(public_input@)),
        r matches Ok(b) ==> b == groth16_accepts(
            g16vk_id(*vk),
            vals(public_input@),
            g16p_id(*proof),
        ),
        r matches Err(e) ==> e is Other,
{
    let input: Vec<ark_bn254::Fr> = public_input.iter().map(|x| x.inner).collect();
    match <ark_groth16::Groth16<ark_bn254::Bn254> as ark_snark::SNARK<ark_bn254::Fr>>::verify(
        &vk.inner,
        &input,
        &proof.inner,
    ) {
        Ok(b) => Ok(b),
        Err(e) => Err(Error::Other(format!("{}", e))),
    }
}

/// Relies on the arkworks proof layout: the three proof elements
/// (A, B, C), functions of the proof.
#[verifier::external_body]
pub fn groth16_proof_parts(p: &Groth16Proof) -> (r: (G1Affine, G2Affine, G1Affine))
    ensures
        g1a_val(r.0) == g16_a_of(g16p_id(*p)),
        g2a_val(r.1) == g16_b_of(g16p_id(*p)),
        g1a_val(r.2) == g16_c_of(g16p_id(*p)),
{
    (
        G1Affine { inner: p.inner.a },
        G2Affine { inner: p.inner.b },
        G1Affine { inner: p.inner.c },
    )
}

/// Relies on arkworks' coordinates and byte conversion: the EVM encoding
/// of a twist point, (x.c1, x.c0, y.c1, y.c0) as big-endian bytes, the
/// identity as zeros; 128 bytes, a function of the point.
#[verifier::external_body]
pub fn g2_to_eth_format(p: &G2Affine) -> (r: Vec<u8>)
    ensures
        r@ == g2_eth_bytes(g2a_val(*p)),
        r@.len() == 128,
{
    let (x, y) = match ark_ec::AffineRepr::xy(&p.inner) {
        Some((x, y)) => (*x, *y),
        None => {
            let z = <ark_bn254::Fq2 as ark_std::Zero>::zero();
            (z, z)
        },
    };
    let mut out = ark_ff::BigInteger::to_bytes_be(&ark_ff::PrimeField::into_bigint(x.c1));
    out.extend(ark_ff::BigInteger::to_bytes_be(&ark_ff::PrimeField::into_bigint(x.c0)));
    out.extend(ark_ff::BigInteger::to_bytes_be(&ark_ff::PrimeField::into_bigint(y.c1)));
    out.extend(ark_ff::BigInteger::to_bytes_be(&ark_ff::PrimeField::into_bigint(y.c0)));
    out
}

/// The EVM encoding of a point of C1: x then y as 32 big-endian bytes
/// each, with the affine identity encoded as (0, 0).
pub open spec fn point_eth_bytes(p: nat) -> Seq<u8> {
    if p == 0 {
        Seq::new(64, |k: int| 0u8)
    } else {
        fq_be_bytes(xcoord_of(p)) + fq_be_bytes(ycoord_of(p))
    }
}

/// Encodes a point of C1 for the EVM: x then y, big-endian, the identity
/// as (0, 0).
pub fn point_to_eth_format(p: &G1Affine) -> (r: Vec<u8>)
    ensures
        r@ == point_eth_bytes(g1a_val(*p)),
{
    match p.xy() {
        None => {
            let mut out: Vec<u8> = Vec::new();
            for k in 0..64usize
                invariant
                    out@.len() == k,
                    forall|j: int| 0 <= j < k ==> out@[j] == 0u8,
            {
                out.push(0u8);
            }
            proof {
                assert(out@ =~= Seq::new(64, |k: int| 0u8));
            }
            out
        },
        Some((x, y)) => {
            let mut out = fq_to_be_bytes(&x);
            let yb = fq_to_be_bytes(&y);
            append_bytes(&mut out, &yb);
            out
        },
    }
}

/// Appends the entries of `src` to `dst`.
fn append_bytes(dst: &mut Vec<u8>, src: &Vec<u8>)
    ensures
        final(dst)@ == old(dst)@ + src@,
{
    for i in 0..src.len()
        invariant
            dst@ =~= old(dst)@ + src@.take(i as int),
    {
        dst.push(src[i]);
    }
    proof {
        assert(dst@ =~= old(dst)@ + src@);
    }
}

/// The onchain decider proof: the SNARK proof of the decider circuit,
/// the two KZG opening proofs for the folded witness and error vectors,
/// the last cross-term commitment with its folding challenge, and the
/// prover-claimed KZG challenges.
pub struct Proof {
    /// The Groth16 proof of the decider circuit.
    pub snark_proof: Groth16Proof,
    /// The opening proof of the folded witness vector.
    pub kzg_proof_W: KZGProof,
    /// The opening proof of the folded error vector.
    pub kzg_proof_E: KZGProof,
    /// The cross-term commitment of the final fold.
    pub cmT: G1,
    /// The challenge of the final fold.
    pub r: Fr,
    /// The claimed challenge for the witness opening.
    pub kzg_challenge_W: Fr,
    /// The claimed challenge for the error opening.
    pub kzg_challenge_E: Fr,
}

/// The decider verifier's parameters: the parameter hash and the two
/// verifying keys.
pub struct VerifierParam {
    /// The hash of the public parameters.
    pub pp_hash: Fr,
    /// The Groth16 verifying key of the decider circuit.
    pub snark_vp: Groth16VerifyingKey,
    /// The KZG verifying key.
    pub cs_vp: VerifierKey,
}

/// The final fold of the commitments: cmW' = cmW + r·cmw and
/// cmE' = cmE + r·cmT (a fresh incoming instance has no error term).
pub fn fold_group_elements_native(
    running: &CommittedInstance,
    incoming: &CommittedInstance,
    cmT: &G1,
    r: &Fr,
) -> (res: (G1, G1))
    ensures
        g1_val(res.0) == gadd(g1_val(running.cmW), gmul(fr_nat(*r), g1_val(incoming.cmW))),
        g1_val(res.1) == gadd(g1_val(running.cmE), gmul(fr_nat(*r), g1_val(*cmT))),
{
    let cm_w = running.cmW.add(&incoming.cmW.scalar_mul(r));
    let cm_e = running.cmE.add(&cmT.scalar_mul(r));
    (cm_w, cm_e)
}

/// The public input vector of the decider circuit: the parameter hash,
/// the step counter, the states, the limbs of the folded commitments,
/// the KZG challenges and claimed evaluations, the limbs of cmT, and the
/// folding challenge.
pub open spec fn decider_public_input(
    pp: nat,
    i: nat,
    z0: Seq<nat>,
    zi: Seq<nat>,
    cmw: nat,
    cme: nat,
    chal_w: nat,
    chal_e: nat,
    eval_w: nat,
    eval_e: nat,
    cmt: nat,
    r: nat,
) -> Seq<nat> {
    seq![pp, i] + z0 + zi + px(cmw) + py(cmw) + px(cme)
        + py(cme) + seq![chal_w, chal_e] + seq![eval_w, eval_e] + px(cmt)
        + py(cmt) + seq![r]
}


/// The onchain decider: checks a compressed proof of the whole IVC run.
pub struct Decider {}

impl Decider {
    /// Verifies an onchain decider proof: folds the commitments once more,
    /// runs the Groth16 verifier over the assembled public input, and checks
    /// both KZG openings at the claimed challenges.  A run of fewer than two
    /// steps is rejected with `NotEnoughSteps`; acceptance is exactly the
    /// conjunction of the three checks.
    pub fn verify(
        vp: &VerifierParam,
        i: u64,
        z_0: &Vec<Fr>,
        z_i: &Vec<Fr>,
        running_instance: &CommittedInstance,
        incoming_instance: &CommittedInstance,
        proof: &Proof,
    ) -> (res: Result<bool, Error>)
        ensures
            i <= 1 ==> (res matches Err(e) && e is NotEnoughSteps),
            res matches Ok(b) ==> b,
            ({
                let cmw = gadd(
                    g1_val(running_instance.cmW),
                    gmul(fr_nat(proof.r), g1_val(incoming_instance.cmW)),
                );
                let cme = gadd(
                    g1_val(running_instance.cmE),
                    gmul(fr_nat(proof.r), g1_val(proof.cmT)),
                );
                &&& res is Ok ==> {
                    &&& i >= 2
                    &&& groth16_accepts(
                        g16vk_id(vp.snark_vp),
                        decider_public_input(
                            fr_nat(vp.pp_hash),
                            i as nat,
                            vals(z_0@),
                            vals(z_i@),
                            cmw,
                            cme,
                            fr_nat(proof.kzg_challenge_W),
                            fr_nat(proof.kzg_challenge_E),
                            fr_nat(proof.kzg_proof_W.eval),
                            fr_nat(proof.kzg_proof_E.eval),
                            g1_val(proof.cmT),
                            fr_nat(proof.r),
                        ),
                        g16p_id(proof.snark_proof),
                    )
                    &&& kzg_check_of(
                        vk_id(vp.cs_vp),
                        cmw,
                        fr_nat(proof.kzg_challenge_W),
                        fr_nat(proof.kzg_proof_W.eval),
                        g1_val(proof.kzg_proof_W.proof),
                    )
                    &&& kzg_check_of(
                        vk_id(vp.cs_vp),
                        cme,
                        fr_nat(proof.kzg_challenge_E),
                        fr_nat(proof.kzg_proof_E.eval),
                        g1_val(proof.kzg_proof_E.proof),
                    )
                }
                &&& (res matches Err(e) && e is SNARKVerificationFail) ==> !groth16_accepts(
                    g16vk_id(vp.snark_vp),
                    decider_public_input(
                        fr_nat(vp.pp_hash),
                        i as nat,
                        vals(z_0@),
                        vals(z_i@),
                        cmw,
                        cme,
                        fr_nat(proof.kzg_challenge_W),
                        fr_nat(proof.kzg_challenge_E),
                        fr_nat(proof.kzg_proof_W.eval),
                        fr_nat(proof.kzg_proof_E.eval),
                        g1_val(proof.cmT),
                        fr_nat(proof.r),
                    ),
                    g16p_id(proof.snark_proof),
                )
                &&& (res matches Err(e) && e is CommitmentVerificationFail) ==> !(kzg_check_of(
                    vk_id(vp.cs_vp),
                    cmw,
                    fr_nat(proof.kzg_challenge_W),
                    fr_nat(proof.kzg_proof_W.eval),
                    g1_val(proof.kzg_proof_W.proof),
                ) && kzg_check_of(
                    vk_id(vp.cs_vp),
                    cme,
                    fr_nat(proof.kzg_challenge_E),
                    fr_nat(proof.kzg_proof_E.eval),
                    g1_val(proof.kzg_proof_E.proof),
                ))
            }),
    {
        if i <= 1 {
            return Err(Error::NotEnoughSteps);
        }
        let (cm_w, cm_e) = fold_group_elements_native(
            running_instance,
            incoming_instance,
            &proof.cmT,
            &proof.r,
        );
        let mut public_input: Vec<Fr> = Vec::new();
        public_input.push(vp.pp_hash);
        public_input.push(Fr::from_u64(i));
        crate::linalg::append_fr_vec(&mut public_input, z_0);
        crate::linalg::append_fr_vec(&mut public_input, z_i);
        let (cmw_x, cmw_y) = point_to_nonnative_limbs(&cm_w);
        crate::linalg::append_fr_vec(&mut public_input, &cmw_x);
        crate::linalg::append_fr_vec(&mut public_input, &cmw_y);
        let (cme_x, cme_y) = point_to_nonnative_limbs(&cm_e);
        crate::linalg::append_fr_vec(&mut public_input, &cme_x);
        crate::linalg::append_fr_vec(&mut public_input, &cme_y);
        public_input.push(proof.kzg_challenge_W);
        public_input.push(proof.kzg_challenge_E);
        public_input.push(proof.kzg_proof_W.eval);
        public_input.push(proof.kzg_proof_E.eval);
        let (cmt_x, cmt_y) = point_to_nonnative_limbs(&proof.cmT);
        crate::linalg::append_fr_vec(&mut public_input, &cmt_x);
        crate::linalg::append_fr_vec(&mut public_input, &cmt_y);
        public_input.push(proof.r);
        proof {
            assert(vals(public_input@) =~= decider_public_input(
                fr_nat(vp.pp_hash),
                i as nat,
                vals(z_0@),
                vals(z_i@),
                g1_val(cm_w),
                g1_val(cm_e),
                fr_nat(proof.kzg_challenge_W),
                fr_nat(proof.kzg_challenge_E),
                fr_nat(proof.kzg_proof_W.eval),
                fr_nat(proof.kzg_proof_E.eval),
                g1_val(proof.cmT),
                fr_nat(proof.r),
            ));
        }
        let snark_v = match groth16_verify(&vp.snark_vp, &public_input, &proof.snark_proof) {
            Ok(b) => b,
            Err(e) => {
                return Err(e);
            },
        };
        if !snark_v {
            return Err(Error::SNARKVerificationFail);
        }
        match KZG::verify_with_challenge(&vp.cs_vp, &proof.kzg_challenge_W, &cm_w, &proof.kzg_proof_W) {
            Ok(()) => {},
            Err(e) => {
                return Err(e);
            },
        }
        match KZG::verify_with_challenge(&vp.cs_vp, &proof.kzg_challenge_E, &cm_e, &proof.kzg_proof_E) {
            Ok(()) => {},
            Err(e) => {
                return Err(e);
            },
        }
        Ok(true)
    }

}

/// The calldata the decider contract consumes, as a function of the
/// models: a fixed-order big-endian encoding of the function selector,
/// the step counter, the states, the commitments, the last fold, the
/// Groth16 proof elements, and the KZG challenges, evaluations and
/// opening proofs.
pub open spec fn calldata_model(
    selector: Seq<u8>,
    i: nat,
    z0: Seq<nat>,
    zi: Seq<nat>,
    run_cmw: nat,
    run_cme: nat,
    inc_cmw: nat,
    cmt: nat,
    r: nat,
    pa: nat,
    pb: nat,
    pc: nat,
    chal_w: nat,
    chal_e: nat,
    eval_w: nat,
    eval_e: nat,
    pi_w: nat,
    pi_e: nat,
) -> Seq<u8> {
    selector + fr_be_bytes(i) + frs_be_bytes(z0) + frs_be_bytes(zi) + point_eth_bytes(run_cmw)
        + point_eth_bytes(run_cme) + point_eth_bytes(inc_cmw) + point_eth_bytes(cmt) + fr_be_bytes(
        r,
    ) + point_eth_bytes(pa) + g2_eth_bytes(pb) + point_eth_bytes(pc) + fr_be_bytes(chal_w)
        + fr_be_bytes(chal_e) + fr_be_bytes(eval_w) + fr_be_bytes(eval_e) + point_eth_bytes(pi_w)
        + point_eth_bytes(pi_e)
}

/// The concatenated big-endian encodings of a vector of field elements.
pub open spec fn frs_be_bytes(s: Seq<nat>) -> Seq<u8>
    decreases s.len(),
{
    if s.len() == 0 {
        Seq::<u8>::empty()
    } else {
        frs_be_bytes(s.drop_last()) + fr_be_bytes(s.last())
    }
}

/// Encodes a vector of field elements, big-endian, in order.
fn encode_frs(out: &mut Vec<u8>, s: &Vec<Fr>)
    ensures
        final(out)@ == old(out)@ + frs_be_bytes(vals(s@)),
{
    for k in 0..s.len()
        invariant
            out@ =~= old(out)@ + frs_be_bytes(vals(s@).take(k as int)),
    {
        let b = fr_to_be_bytes(&s[k]);
        append_bytes(out, &b);
        proof {
            assert(vals(s@).take(k + 1).drop_last() =~= vals(s@).take(k as int));
            assert(vals(s@).take(k + 1).last() == fr_nat(s@[k as int]));
        }
    }
    proof {
        assert(vals(s@).take(s@.len() as int) =~= vals(s@));
    }
}

/// Prepares the calldata for the decider contract: the fixed-order
/// big-endian layout over the selector, the public values, the last
/// fold, the Groth16 proof elements and the KZG openings.
pub fn prepare_calldata(
    function_signature_check: &Vec<u8>,
    i: u64,
    z_0: &Vec<Fr>,
    z_i: &Vec<Fr>,
    running_instance: &CommittedInstance,
    incoming_instance: &CommittedInstance,
    proof: &Proof,
) -> (res: Result<Vec<u8>, Error>)
    ensures
        function_signature_check@.len() == 4 <==> res is Ok,
        res matches Ok(out) ==> out@ == calldata_model(
            function_signature_check@,
            i as nat,
            vals(z_0@),
            vals(z_i@),
            g1_val(running_instance.cmW),
            g1_val(running_instance.cmE),
            g1_val(incoming_instance.cmW),
            g1_val(proof.cmT),
            fr_nat(proof.r),
            g16_a_of(g16p_id(proof.snark_proof)),
            g16_b_of(g16p_id(proof.snark_proof)),
            g16_c_of(g16p_id(proof.snark_proof)),
            fr_nat(proof.kzg_challenge_W),
            fr_nat(proof.kzg_challenge_E),
            fr_nat(proof.kzg_proof_W.eval),
            fr_nat(proof.kzg_proof_E.eval),
            g1_val(proof.kzg_proof_W.proof),
            g1_val(proof.kzg_proof_E.proof),
        ),
        res matches Err(e) ==> e is ShapeMismatch,
{
    if function_signature_check.len() != 4 {
        return Err(Error::ShapeMismatch("the selector has four bytes".to_string()));
    }
    let mut out: Vec<u8> = Vec::new();
    append_bytes(&mut out, function_signature_check);
    let i_b = fr_to_be_bytes(&Fr::from_u64(i));
    append_bytes(&mut out, &i_b);
    encode_frs(&mut out, z_0);
    encode_frs(&mut out, z_i);
    let b1 = point_to_eth_format(&running_instance.cmW.into_affine());
    append_bytes(&mut out, &b1);
    let b2 = point_to_eth_format(&running_instance.cmE.into_affine());
    append_bytes(&mut out, &b2);
    let b3 = point_to_eth_format(&incoming_instance.cmW.into_affine());
    append_bytes(&mut out, &b3);
    let b4 = point_to_eth_format(&proof.cmT.into_affine());
    append_bytes(&mut out, &b4);
    let r_b = fr_to_be_bytes(&proof.r);
    append_bytes(&mut out, &r_b);
    let (pa, pb, pc) = groth16_proof_parts(&proof.snark_proof);
    let pa_b = point_to_eth_format(&pa);
    append_bytes(&mut out, &pa_b);
    let pb_b = g2_to_eth_format(&pb);
    append_bytes(&mut out, &pb_b);
    let pc_b = point_to_eth_format(&pc);
    append_bytes(&mut out, &pc_b);
    let cw_b = fr_to_be_bytes(&proof.kzg_challenge_W);
    append_bytes(&mut out, &cw_b);
    let ce_b = fr_to_be_bytes(&proof.kzg_challenge_E);
    append_bytes(&mut out, &ce_b);
    let ew_b = fr_to_be_bytes(&proof.kzg_proof_W.eval);
    append_bytes(&mut out, &ew_b);
    let ee_b = fr_to_be_bytes(&proof.kzg_proof_E.eval);
    append_bytes(&mut out, &ee_b);
    let pw_b = point_to_eth_format(&proof.kzg_proof_W.proof.into_affine());
    append_bytes(&mut out, &pw_b);
    let pe_b = point_to_eth_format(&proof.kzg_proof_E.proof.into_affine());
    append_bytes(&mut out, &pe_b);
    proof {
        assert(out@ =~= calldata_model(
            function_signature_check@,
            i as nat,
            vals(z_0@),
            vals(z_i@),
            g1_val(running_instance.cmW),
            g1_val(running_instance.cmE),
            g1_val(incoming_instance.cmW),
            g1_val(proof.cmT),
            fr_nat(proof.r),
            g16_a_of(g16p_id(proof.snark_proof)),
            g16_b_of(g16p_id(proof.snark_proof)),
            g16_c_of(g16p_id(proof.snark_proof)),
            fr_nat(proof.kzg_challenge_W),
            fr_nat(proof.kzg_challenge_E),
            fr_nat(proof.kzg_proof_W.eval),
            fr_nat(proof.kzg_proof_E.eval),
            g1_val(proof.kzg_proof_W.proof),
            g1_val(proof.kzg_proof_E.proof),
        ));
    }
    Ok(out)
}


/// The compute part of a decider proof: the final fold, its challenge,
/// and the two KZG openings at the transcript-derived challenges.  The
/// Groth16 proof over the decider circuit is produced outside (it needs
/// the outside prover); combined with these parts it forms a `Proof`.
pub struct DeciderOpenings {
    /// The folded running instance after the last fold.
    pub U_final: CommittedInstance,
    /// The folded running witness after the last fold.
    pub W_final: Witness,
    /// The cross-term commitment of the final fold.
    pub cmT: G1,
    /// The challenge of the final fold.
    pub r: Fr,
    /// The challenge at which the witness vector is opened.
    pub kzg_challenge_W: Fr,
    /// The challenge at which the error vector is opened.
    pub kzg_challenge_E: Fr,
    /// The opening proof of the folded witness vector.
    pub kzg_proof_W: KZGProof,
    /// The opening proof of the folded error vector.
    pub kzg_proof_E: KZGProof,
}

/// The transcript history up to the first KZG challenge: the fold
/// absorptions, the challenge-bits squeeze, then the folded instance.
pub open spec fn decider_challenge_hist(
    cfg: nat,
    pp: nat,
    u1: nat,
    x1: Seq<nat>,
    cme1: nat,
    cmw1: nat,
    u2: nat,
    x2: Seq<nat>,
    cme2: nat,
    cmw2: nat,
    cmt: nat,
    uf: nat,
    xf: Seq<nat>,
    cmef: nat,
    cmwf: nat,
) -> Seq<int> {
    seq![pp as int] + instance_absorption(u1, x1, cme1, cmw1) + instance_absorption(
        u2,
        x2,
        cme2,
        cmw2,
    ) + absorbed(px(cmt)) + absorbed(py(cmt)) + seq![
        crate::transcript::squeeze_bits_marker(crate::N_BITS_RO as nat),
    ] + instance_absorption(uf, xf, cmef, cmwf)
}

impl Decider {
    /// Performs the native compute part of decider proving: one final
    /// fold of the stored pairs under the transcript-derived challenge,
    /// then two KZG challenges squeezed after absorbing the folded
    /// instance, and the two openings of the folded witness and error
    /// vectors at those challenges.  The claimed evaluations are exactly
    /// the polynomial values at the challenges; failure can only come
    /// from a folded vector larger than the commitment key.
    pub fn prove_openings<FC: FCircuit>(kzg_pk: &ProverKey, ivc: &IVC<FC>) -> (res: Result<
        DeciderOpenings,
        Error,
    >)
        requires
            ivc.wf(),
            ivc.i >= 1,
        ensures
            res matches Ok(o) ==> {
                let gens = g1a_vals(ivc.pedersen_params.generators@);
                let t = cross_term(
                    ivc.r1cs,
                    relaxed_z(fr_nat(ivc.u_i.u), vals(ivc.u_i.x@), vals(ivc.w_i.W@)),
                    relaxed_z(fr_nat(ivc.U_i.u), vals(ivc.U_i.x@), vals(ivc.W_i.W@)),
                    fr_nat(ivc.u_i.u),
                    fr_nat(ivc.U_i.u),
                );
                let cmt = pedersen_commit_val(gens, t);
                let r = nova_fold_challenge(
                    cfg_id(ivc.poseidon_config),
                    fr_nat(ivc.pp_hash),
                    fr_nat(ivc.U_i.u),
                    vals(ivc.U_i.x@),
                    g1_val(ivc.U_i.cmE),
                    g1_val(ivc.U_i.cmW),
                    fr_nat(ivc.u_i.u),
                    vals(ivc.u_i.x@),
                    g1_val(ivc.u_i.cmE),
                    g1_val(ivc.u_i.cmW),
                    cmt,
                );
                let hist = decider_challenge_hist(
                    cfg_id(ivc.poseidon_config),
                    fr_nat(ivc.pp_hash),
                    fr_nat(ivc.U_i.u),
                    vals(ivc.U_i.x@),
                    g1_val(ivc.U_i.cmE),
                    g1_val(ivc.U_i.cmW),
                    fr_nat(ivc.u_i.u),
                    vals(ivc.u_i.x@),
                    g1_val(ivc.u_i.cmE),
                    g1_val(ivc.u_i.cmW),
                    cmt,
                    fr_nat(o.U_final.u),
                    vals(o.U_final.x@),
                    g1_val(o.U_final.cmE),
                    g1_val(o.U_final.cmW),
                );
                &&& g1_val(o.cmT) == cmt
                &&& fr_nat(o.r) == r
                &&& fr_nat(o.U_final.u) == p_add(fr_nat(ivc.U_i.u), p_mul(r, fr_nat(ivc.u_i.u)))
                &&& vals(o.U_final.x@) == vadd(vals(ivc.U_i.x@), vscale(r, vals(ivc.u_i.x@)))
                &&& vals(o.W_final.E@) == vadd(vals(ivc.W_i.E@), vscale(r, t))
                &&& vals(o.W_final.W@) == vadd(vals(ivc.W_i.W@), vscale(r, vals(ivc.w_i.W@)))
                &&& fr_nat(o.kzg_challenge_W) == challenge_of(cfg_id(ivc.poseidon_config), hist)
                &&& fr_nat(o.kzg_challenge_E) == challenge_of(
                    cfg_id(ivc.poseidon_config),
                    hist.push(crate::transcript::squeeze_marker()),
                )
                &&& fr_nat(o.kzg_proof_W.eval) == poly_eval(
                    vals(o.W_final.W@).take(trimmed_len(vals(o.W_final.W@)) as int),
                    fr_nat(o.kzg_challenge_W),
                )
                &&& fr_nat(o.kzg_proof_E.eval) == poly_eval(
                    vals(o.W_final.E@).take(trimmed_len(vals(o.W_final.E@)) as int),
                    fr_nat(o.kzg_challenge_E),
                )
            },
    {
        let mut transcript = Transcript::new(&ivc.poseidon_config);
        transcript.absorb(&ivc.pp_hash);
        absorb_instance(&mut transcript, &ivc.U_i);
        absorb_instance(&mut transcript, &ivc.u_i);
        let t = match crate::nova::compute_t(&ivc.r1cs, &ivc.u_i, &ivc.w_i, &ivc.U_i, &ivc.W_i) {
            Ok(t) => t,
            Err(e) => {
                return Err(e);
            },
        };
        proof {
            assert(t@.len() == vals(t@).len());
            assert(vals(t@).len() == ivc.r1cs.A.rows().len());
        }
        let zero = Fr::zero();
        let cmt = match pedersen_commit(&ivc.pedersen_params, &t, &zero) {
            Ok(c) => c,
            Err(e) => {
                return Err(e);
            },
        };
        transcript.absorb_point(&cmt);
        let bits = transcript.get_challenge_nbits(crate::N_BITS_RO);
        let r = fr_from_le_bits(&bits);
        let w_folded = match fold_witness(&r, &ivc.W_i, &ivc.w_i, &t) {
            Ok(w) => w,
            Err(e) => {
                return Err(e);
            },
        };
        let u_folded = match fold_committed_instance(&r, &ivc.U_i, &ivc.u_i, &cmt) {
            Ok(u) => u,
            Err(e) => {
                return Err(e);
            },
        };
        absorb_instance(&mut transcript, &u_folded);
        proof {
            assert(crate::transcript::t_hist(transcript) =~= decider_challenge_hist(
                cfg_id(ivc.poseidon_config),
                fr_nat(ivc.pp_hash),
                fr_nat(ivc.U_i.u),
                vals(ivc.U_i.x@),
                g1_val(ivc.U_i.cmE),
                g1_val(ivc.U_i.cmW),
                fr_nat(ivc.u_i.u),
                vals(ivc.u_i.x@),
                g1_val(ivc.u_i.cmE),
                g1_val(ivc.u_i.cmW),
                g1_val(cmt),
                fr_nat(u_folded.u),
                vals(u_folded.x@),
                g1_val(u_folded.cmE),
                g1_val(u_folded.cmW),
            ));
        }
        let chal_w = transcript.get_challenge();
        let chal_e = transcript.get_challenge();
        let pw = match KZG::prove_with_challenge(kzg_pk, &chal_w, &w_folded.W, &zero) {
            Ok(p) => p,
            Err(e) => {
                return Err(e);
            },
        };
        let pe = match KZG::prove_with_challenge(kzg_pk, &chal_e, &w_folded.E, &zero) {
            Ok(p) => p,
            Err(e) => {
                return Err(e);
            },
        };
        Ok(
            DeciderOpenings {
                U_final: u_folded,
                W_final: w_folded,
                cmT: cmt,
                r,
                kzg_challenge_W: chal_w,
                kzg_challenge_E: chal_e,
                kzg_proof_W: pw,
                kzg_proof_E: pe,
            },
        )
    }
}

} // verus!

