//! The Nova IVC driver: the folding state machine.  Each `prove_step`
//! advances the state by one application of F, folds the running and
//! incoming instances with a transcript-derived challenge, synthesizes the
//! augmented circuit for the step, and commits to its witness as the new
//! incoming instance.
//!
//! The driver's invariant `wf` carries the protocol's stated properties:
//! the incoming instance's public input is exactly the instance hash
//! H(i, z_0, z_i, U_i), and, once a step has been produced, both the
//! running pair and the incoming pair satisfy the (relaxed) relation, the
//! incoming instance being fresh (u = 1, cmE = 0).

use vstd::prelude::*;

use crate::arith::R1CS;
use crate::augmented::synthesize_augmented_circuit;
use crate::curve::{g1_val, g1a_vals, gadd, gmul, G1};
use crate::field::{bools_val, fr_from_le_bits, fr_nat, p_add, p_mul, Fr};
use crate::frontend::FCircuit;
use crate::linalg::{copy_fr_vec, is_zero_seq, vadd, vals, vec_eq, vscale, zero_vec, SparseMatrix};
use crate::nonnative::{point_x_limbs, point_y_limbs};
use crate::nova::{
    absorb_instance, cross_term, fold_committed_instance, fold_witness, instance_absorption,
    instance_hash, relaxed_relation_holds, relaxed_z, CommittedInstance, Witness,
};
use crate::pedersen::{pedersen_commit, pedersen_commit_val, pedersen_setup, PedersenParams};
use crate::r1cs_var::CsRef;
use crate::rng::Rng;
use crate::transcript::{absorbed, cfg_id, challenge_bits_of, PoseidonConfig, Transcript};
use crate::Error;

verus! {

/// The folding challenge of one Nova step: the 128-bit prefix squeezed
/// from a fresh transcript that absorbed the parameter hash, the running
/// instance, the incoming instance and the cross-term commitment.
pub open spec fn nova_fold_challenge(
    cfg: nat,
    pp: nat,
    u1: nat,
    x1: Seq<nat>,
    cme1: nat,
    cmw1: nat,
    u2: nat,
    x2: Seq<nat>,
    cme2: nat,
    cmw2: nat,
    cmt: nat,
) -> nat {
    bools_val(
        challenge_bits_of(
            cfg,
            seq![pp as int] + instance_absorption(u1, x1, cme1, cmw1) + instance_absorption(
                u2,
                x2,
                cme2,
                cmw2,
            ) + absorbed(point_x_limbs(cmt)) + absorbed(point_y_limbs(cmt)),
            crate::N_BITS_RO as nat,
        ),
    )
}

/// The k-fold application of the step function from an initial state,
/// with the per-step external inputs taken in order from `exts`.
pub open spec fn iterated_state<FC: FCircuit>(
    f: FC,
    k: nat,
    z0: Seq<nat>,
    exts: Seq<Seq<nat>>,
) -> Seq<nat>
    decreases k,
{
    if k == 0 {
        z0
    } else {
        f.step_spec((k - 1) as nat, iterated_state(f, (k - 1) as nat, z0, exts), exts[k - 1])
    }
}

/// The first k iterations do not read an input appended after them.
proof fn lemma_iterated_prefix<FC: FCircuit>(f: FC, k: nat, z0: Seq<nat>, exts: Seq<Seq<nat>>, e: Seq<nat>)
    requires
        k <= exts.len(),
    ensures
        iterated_state(f, k, z0, exts.push(e)) == iterated_state(f, k, z0, exts),
    decreases k,
{
    if k > 0 {
        lemma_iterated_prefix(f, (k - 1) as nat, z0, exts, e);
        assert(exts.push(e)[k - 1] == exts[k - 1]);
    }
}

/// After any run of steps the state is the iterated application of the
/// step function: a state reached by k steps, advanced once more as
/// `prove_step` advances it, is the state after k + 1 steps with the new
/// external inputs appended.
pub proof fn lemma_state_iterates<FC: FCircuit>(
    f: FC,
    k: nat,
    z0: Seq<nat>,
    exts: Seq<Seq<nat>>,
    z: Seq<nat>,
    e: Seq<nat>,
)
    requires
        k == exts.len(),
        z == iterated_state(f, k, z0, exts),
    ensures
        f.step_spec(k, z, e) == iterated_state(f, k + 1, z0, exts.push(e)),
{
    lemma_iterated_prefix(f, k, z0, exts, e);
    assert(exts.push(e)[k as int] == e);
}

/// The running state of the IVC.
pub struct IVC<FC: FCircuit> {
    /// The R1CS of the augmented circuit, extracted at initialization.
    pub r1cs: R1CS,
    /// The Poseidon configuration shared by hash and transcript.
    pub poseidon_config: PoseidonConfig,
    /// The Pedersen commitment parameters.
    pub pedersen_params: PedersenParams,
    /// The step function.
    pub F: FC,
    /// The hash of the public parameters, absorbed into each step's
    /// transcript.
    pub pp_hash: Fr,
    /// The step counter.
    pub i: u64,
    /// The initial state.
    pub z_0: Vec<Fr>,
    /// The current state.
    pub z_i: Vec<Fr>,
    /// The incoming witness.
    pub w_i: Witness,
    /// The incoming committed instance.
    pub u_i: CommittedInstance,
    /// The running witness.
    pub W_i: Witness,
    /// The running committed instance.
    pub U_i: CommittedInstance,
}

impl<FC: FCircuit> IVC<FC> {
    /// The driver's invariant: dimensions in place, the incoming
    /// instance's public input is the instance hash, and, from the first
    /// step on, both pairs satisfy the relation and the incoming instance
    /// is fresh.
    pub open spec fn wf(&self) -> bool {
        &&& self.r1cs.wf()
        &&& self.r1cs.l == 1
        &&& self.r1cs.A.n_cols >= 2
        &&& self.z_0@.len() == self.F.state_len_spec()
        &&& self.z_i@.len() == self.F.state_len_spec()
        &&& self.pedersen_params.generators@.len() >= self.r1cs.A.n_rows
        &&& self.pedersen_params.generators@.len() >= self.r1cs.A.n_cols - 2
        &&& self.u_i.x@.len() == 1
        &&& self.U_i.x@.len() == 1
        &&& self.w_i.E@.len() == self.r1cs.A.n_rows
        &&& self.w_i.W@.len() == self.r1cs.A.n_cols - 2
        &&& self.W_i.E@.len() == self.r1cs.A.n_rows
        &&& self.W_i.W@.len() == self.r1cs.A.n_cols - 2
        &&& fr_nat(self.w_i.rE) == 0
        &&& fr_nat(self.w_i.rW) == 0
        &&& fr_nat(self.W_i.rE) == 0
        &&& fr_nat(self.W_i.rW) == 0
        &&& vals(self.u_i.x@) == seq![
            instance_hash(
                cfg_id(self.poseidon_config),
                self.i as nat,
                vals(self.z_0@),
                vals(self.z_i@),
                g1_val(self.U_i.cmE),
                fr_nat(self.U_i.u),
                g1_val(self.U_i.cmW),
                vals(self.U_i.x@),
            ),
        ]
        &&& self.i >= 1 ==> {
            &&& relaxed_relation_holds(
                self.r1cs,
                fr_nat(self.U_i.u),
                vals(self.U_i.x@),
                vals(self.W_i.W@),
                vals(self.W_i.E@),
            )
            &&& relaxed_relation_holds(
                self.r1cs,
                fr_nat(self.u_i.u),
                vals(self.u_i.x@),
                vals(self.w_i.W@),
                vals(self.w_i.E@),
            )
            &&& fr_nat(self.u_i.u) == 1
            &&& g1_val(self.u_i.cmE) == 0
            &&& is_zero_seq(vals(self.w_i.E@))
        }
    }

    /// Initializes the driver: synthesizes the augmented circuit once to
    /// extract its R1CS, draws the Pedersen parameters, hashes the public
    /// parameters, and sets the dummy instances.  Both initial pairs are
    /// all-zero with u = 0, so they satisfy the relaxed relation from the
    /// start; the incoming instance's public input is set to the
    /// instance hash of the dummy at step 0.
    pub fn new(rng: &mut Rng, poseidon_config: PoseidonConfig, f_circuit: FC, z_0: Vec<Fr>) -> (r:
        Result<IVC<FC>, Error>)
        ensures
            r matches Ok(ivc) ==> {
                &&& ivc.wf()
                &&& ivc.i == 0
                &&& ivc.z_0@ == z_0@
                &&& ivc.z_i@ == z_0@
                &&& ivc.F == f_circuit
                &&& fr_nat(ivc.U_i.u) == 0
                &&& g1_val(ivc.U_i.cmE) == 0
                &&& g1_val(ivc.U_i.cmW) == 0
                &&& is_zero_seq(vals(ivc.U_i.x@))
                &&& is_zero_seq(vals(ivc.W_i.E@))
                &&& is_zero_seq(vals(ivc.W_i.W@))
                &&& fr_nat(ivc.u_i.u) == 0
                &&& g1_val(ivc.u_i.cmE) == 0
                &&& g1_val(ivc.u_i.cmW) == 0
                &&& is_zero_seq(vals(ivc.w_i.E@))
                &&& is_zero_seq(vals(ivc.w_i.W@))
            },
            z_0@.len() != f_circuit.state_len_spec() ==> (r matches Err(e) && e is ShapeMismatch),
    {
        if z_0.len() != f_circuit.state_len() {
            return Err(Error::ShapeMismatch("initial state length".to_string()));
        }
        // synthesize once, with placeholder values, to obtain the shape
        let u_shape = CommittedInstance::dummy(1);
        let u_shape2 = CommittedInstance::dummy(1);
        let u_shape3 = CommittedInstance::dummy(1);
        let ext0 = zero_vec(f_circuit.external_inputs_len());
        let cs = CsRef::new();
        let zero_pt = G1::zero();
        let one = Fr::one();
        let zero = Fr::zero();
        match synthesize_augmented_circuit(
            &cs,
            &poseidon_config,
            &zero,
            0,
            &z_0,
            &z_0,
            &ext0,
            &u_shape,
            &u_shape2,
            &u_shape3,
            &zero_pt,
            &one,
            &zero,
            &f_circuit,
        ) {
            Ok(()) => {},
            Err(e) => {
                return Err(e);
            },
        }
        cs.finalize();
        let r1cs = match crate::arith::extract_r1cs(&cs) {
            Ok(r1cs) => r1cs,
            Err(e) => {
                return Err(e);
            },
        };
        if r1cs.l != 1 || r1cs.A.n_cols < 2 {
            return Err(Error::ShapeMismatch("unexpected public input count".to_string()));
        }
        let n_rows = r1cs.A.n_rows;
        let n_cols = r1cs.A.n_cols;
        let gens = if n_rows > n_cols {
            n_rows
        } else {
            n_cols
        };
        let pedersen_params = pedersen_setup(rng, gens);
        // the hash of the public parameters: the circuit dimensions
        let mut pp_input: Vec<Fr> = Vec::new();
        pp_input.push(Fr::from_u64(r1cs.l as u64));
        pp_input.push(Fr::from_u64(n_rows as u64));
        pp_input.push(Fr::from_u64(n_cols as u64));
        let pp_hash = crate::transcript::poseidon_hash(&poseidon_config, &pp_input);
        // dummy witnesses and instances
        let w_dummy = Witness::new(zero_vec(n_cols - 2), n_rows);
        let w_dummy2 = Witness::new(zero_vec(n_cols - 2), n_rows);
        let u_dummy = CommittedInstance::dummy(1);
        let h0 = u_dummy.hash(&poseidon_config, &Fr::from_u64(0), &z_0, &z_0);
        let mut u0_x: Vec<Fr> = Vec::new();
        u0_x.push(h0);
        let u_0 = CommittedInstance { cmE: G1::zero(), u: Fr::zero(), cmW: G1::zero(), x: u0_x };
        let z_i = copy_fr_vec(&z_0);
        let ivc = IVC {
            r1cs,
            poseidon_config,
            pedersen_params,
            F: f_circuit,
            pp_hash,
            i: 0,
            z_0,
            z_i,
            w_i: w_dummy,
            u_i: u_0,
            W_i: w_dummy2,
            U_i: u_dummy,
        };
        proof {
            assert(vals(ivc.u_i.x@) =~= seq![
                instance_hash(
                    cfg_id(ivc.poseidon_config),
                    0,
                    vals(ivc.z_0@),
                    vals(ivc.z_i@),
                    g1_val(ivc.U_i.cmE),
                    fr_nat(ivc.U_i.u),
                    g1_val(ivc.U_i.cmW),
                    vals(ivc.U_i.x@),
                ),
            ]);
        }
        Ok(ivc)
    }

    /// The state at the current step.
    pub fn state(&self) -> (r: Vec<Fr>)
        ensures
            r@ == self.z_i@,
    {
        copy_fr_vec(&self.z_i)
    }

    /// One step of the IVC, per the folding protocol:
    ///
    /// 1. advance the state natively, z_{i+1} = F(i, z_i, ext);
    /// 2. outside the base step, absorb (pp_hash, U_i, u_i) into a fresh
    ///    transcript, compute the cross term T and its commitment cmT,
    ///    absorb cmT, squeeze the 128-bit challenge r, and fold
    ///    (U_i, W_i) with (u_i, w_i); in the base step keep the dummy
    ///    running pair and set cmT = 0, r = 1;
    /// 3. hash the folded instance into the new public input
    ///    x = H(i+1, z_0, z_{i+1}, U_{i+1});
    /// 4. synthesize the augmented circuit with that x, extract its full
    ///    assignment, and commit to it as the new incoming pair;
    /// 5. advance the stored state.
    ///
    /// On success the step counter advances by one, the state advances by
    /// one application of F, and the folded running instance is exactly
    /// the stated linear combination under the transcript-derived
    /// challenge.  Failure leaves the driver unchanged.
    pub fn prove_step(&mut self, external_inputs: &Vec<Fr>) -> (res: Result<(), Error>)
        requires
            old(self).wf(),
        ensures
            res is Ok ==> {
                &&& final(self).wf()
                &&& final(self).i == old(self).i + 1
                &&& vals(final(self).z_i@) == old(self).F.step_spec(
                    old(self).i as nat,
                    vals(old(self).z_i@),
                    vals(external_inputs@),
                )
                &&& final(self).z_0@ == old(self).z_0@
                &&& final(self).F == old(self).F
                &&& final(self).r1cs == old(self).r1cs
                &&& final(self).poseidon_config == old(self).poseidon_config
                &&& final(self).pp_hash == old(self).pp_hash
                &&& final(self).pedersen_params.generators@ == old(
                    self,
                ).pedersen_params.generators@
                &&& final(self).pedersen_params.h == old(self).pedersen_params.h
            },
            res is Ok && old(self).i >= 1 ==> {
                let gens = g1a_vals(old(self).pedersen_params.generators@);
                let t = cross_term(
                    old(self).r1cs,
                    relaxed_z(fr_nat(old(self).u_i.u), vals(old(self).u_i.x@), vals(old(self).w_i.W@)),
                    relaxed_z(fr_nat(old(self).U_i.u), vals(old(self).U_i.x@), vals(old(self).W_i.W@)),
                    fr_nat(old(self).u_i.u),
                    fr_nat(old(self).U_i.u),
                );
                let cmt = pedersen_commit_val(gens, t);
                let r = nova_fold_challenge(
                    cfg_id(old(self).poseidon_config),
                    fr_nat(old(self).pp_hash),
                    fr_nat(old(self).U_i.u),
                    vals(old(self).U_i.x@),
                    g1_val(old(self).U_i.cmE),
                    g1_val(old(self).U_i.cmW),
                    fr_nat(old(self).u_i.u),
                    vals(old(self).u_i.x@),
                    g1_val(old(self).u_i.cmE),
                    g1_val(old(self).u_i.cmW),
                    cmt,
                );
                &&& fr_nat(final(self).U_i.u) == p_add(
                    fr_nat(old(self).U_i.u),
                    p_mul(r, fr_nat(old(self).u_i.u)),
                )
                &&& vals(final(self).U_i.x@) == vadd(
                    vals(old(self).U_i.x@),
                    vscale(r, vals(old(self).u_i.x@)),
                )
                &&& g1_val(final(self).U_i.cmE) == gadd(
                    g1_val(old(self).U_i.cmE),
                    gadd(gmul(r, cmt), gmul(p_mul(r, r), g1_val(old(self).u_i.cmE))),
                )
                &&& g1_val(final(self).U_i.cmW) == gadd(
                    g1_val(old(self).U_i.cmW),
                    gmul(r, g1_val(old(self).u_i.cmW)),
                )
                &&& vals(final(self).W_i.E@) == vadd(vals(old(self).W_i.E@), vscale(r, t))
                &&& vals(final(self).W_i.W@) == vadd(
                    vals(old(self).W_i.W@),
                    vscale(r, vals(old(self).w_i.W@)),
                )
            },
            res is Err ==> *final(self) == *old(self),
            (res matches Err(e) && e is MaxStep) <==> old(self).i >= usize::MAX as u64,
            (old(self).i < usize::MAX as u64 && external_inputs@.len() != old(
                self,
            ).F.external_inputs_len_spec()) ==> (res matches Err(e) && e is ShapeMismatch),
            res is Ok ==> external_inputs@.len() == old(self).F.external_inputs_len_spec(),
            res is Ok && old(self).i == 0 ==> {
                &&& final(self).U_i.cmE == old(self).U_i.cmE
                &&& final(self).U_i.u == old(self).U_i.u
                &&& final(self).U_i.cmW == old(self).U_i.cmW
                &&& final(self).U_i.x@ == old(self).U_i.x@
                &&& final(self).W_i.E@ == old(self).W_i.E@
                &&& final(self).W_i.W@ == old(self).W_i.W@
                &&& final(self).W_i.rE == old(self).W_i.rE
                &&& final(self).W_i.rW == old(self).W_i.rW
            },
    {
        if self.i >= usize::MAX as u64 {
            return Err(Error::MaxStep);
        }
        if external_inputs.len() != self.F.external_inputs_len() {
            return Err(Error::ShapeMismatch("external input length".to_string()));
        }
        let i_usize = self.i as usize;
        let z_i1 = match self.F.step_native(i_usize, &self.z_i, external_inputs) {
            Ok(z) => z,
            Err(e) => {
                return Err(e);
            },
        };
        proof {
            assert(z_i1@.len() == vals(z_i1@).len());
        }

        let w_folded: Witness;
        let u_folded: CommittedInstance;
        let cm_t: G1;
        let r_fr: Fr;
        if self.i == 0 {
            // base step: keep the dummy running pair
            w_folded = self.W_i.clone();
            u_folded = self.U_i.clone();
            cm_t = G1::zero();
            r_fr = Fr::one();
        } else {
            let mut transcript = Transcript::new(&self.poseidon_config);
            transcript.absorb(&self.pp_hash);
            absorb_instance(&mut transcript, &self.U_i);
            absorb_instance(&mut transcript, &self.u_i);
            let t = match crate::nova::compute_t(
                &self.r1cs,
                &self.u_i,
                &self.w_i,
                &self.U_i,
                &self.W_i,
            ) {
                Ok(t) => t,
                Err(e) => {
                    return Err(e);
                },
            };
            proof {
                assert(t@.len() == vals(t@).len());
                assert(vals(t@).len() == self.r1cs.A.rows().len());
            }
            let zero = Fr::zero();
            let cmt = match pedersen_commit(&self.pedersen_params, &t, &zero) {
                Ok(c) => c,
                Err(e) => {
                    return Err(e);
                },
            };
            transcript.absorb_point(&cmt);
            let bits = transcript.get_challenge_nbits(crate::N_BITS_RO);
            let r = fr_from_le_bits(&bits);
            // the stored pairs must satisfy the relation before folding
            match self.r1cs.check_instance_relation(&self.w_i, &self.u_i) {
                Ok(()) => {},
                Err(e) => {
                    return Err(e);
                },
            }
            match self.r1cs.check_instance_relation(&self.W_i, &self.U_i) {
                Ok(()) => {},
                Err(e) => {
                    return Err(e);
                },
            }
            let wf_ = match fold_witness(&r, &self.W_i, &self.w_i, &t) {
                Ok(w) => w,
                Err(e) => {
                    return Err(e);
                },
            };
            let uf = match fold_committed_instance(&r, &self.U_i, &self.u_i, &cmt) {
                Ok(u) => u,
                Err(e) => {
                    return Err(e);
                },
            };
            w_folded = wf_;
            u_folded = uf;
            cm_t = cmt;
            r_fr = r;
        }

        // the folded pair must satisfy the relaxed relation
        match self.r1cs.check_instance_relation(&w_folded, &u_folded) {
            Ok(()) => {},
            Err(e) => {
                return Err(e);
            },
        }

        // the new public input: the hash of the folded instance
        let i1_fr = Fr::from_u64(self.i + 1);
        let u_i1_x = u_folded.hash(&self.poseidon_config, &i1_fr, &self.z_0, &z_i1);

        // synthesize the augmented circuit for this step
        let cs = CsRef::new();
        match synthesize_augmented_circuit(
            &cs,
            &self.poseidon_config,
            &self.pp_hash,
            self.i,
            &self.z_0,
            &self.z_i,
            external_inputs,
            &self.u_i,
            &self.U_i,
            &u_folded,
            &cm_t,
            &r_fr,
            &u_i1_x,
            &self.F,
        ) {
            Ok(()) => {},
            Err(e) => {
                return Err(e);
            },
        }
        cs.finalize();
        let (inst, wit) = cs.full_assignment();
        if inst.len() != 2 {
            return Err(Error::Other("augmented circuit has an unexpected input count".to_string()));
        }
        if !inst[1].equals(&u_i1_x) {
            return Err(Error::Other("augmented circuit public input mismatch".to_string()));
        }
        let mut z_vec = inst;
        crate::linalg::append_fr_vec(&mut z_vec, &wit);
        if z_vec.len() != self.r1cs.A.n_cols {
            return Err(Error::ShapeMismatch("augmented circuit size changed".to_string()));
        }
        let (w_vec, x_vec) = self.r1cs.split_z(&z_vec);
        proof {
            assert(x_vec@ =~= seq![z_vec@[1]]);
            assert(w_vec@.len() == self.r1cs.A.n_cols - 2);
        }
        let w_i1 = Witness::new(w_vec, self.r1cs.A.n_rows);
        let u_i1 = match w_i1.commit(&self.pedersen_params, x_vec) {
            Ok(u) => u,
            Err(e) => {
                return Err(e);
            },
        };
        // the fresh pair must satisfy the relation: this is where the
        // synthesized circuit's satisfiability is actually checked
        match self.r1cs.check_instance_relation(&w_i1, &u_i1) {
            Ok(()) => {},
            Err(e) => {
                return Err(e);
            },
        }
        proof {
            assert(vals(u_i1.x@) =~= seq![fr_nat(u_i1_x)]);
        }

        proof {
            assert(w_folded.E@.len() == vals(w_folded.E@).len());
            assert(w_folded.W@.len() == vals(w_folded.W@).len());
            assert(u_folded.x@.len() == vals(u_folded.x@).len());
        }
        // advance
        self.w_i = w_i1;
        self.u_i = u_i1;
        self.W_i = w_folded;
        self.U_i = u_folded;
        self.z_i = z_i1;
        self.i = self.i + 1;
        Ok(())
    }
}

/// The full running state needed to resume the IVC or to verify it.
pub struct IVCProof {
    /// The step counter.
    pub i: u64,
    /// The initial state.
    pub z_0: Vec<Fr>,
    /// The current state.
    pub z_i: Vec<Fr>,
    /// The running witness.
    pub W_i: Witness,
    /// The running committed instance.
    pub U_i: CommittedInstance,
    /// The incoming witness.
    pub w_i: Witness,
    /// The incoming committed instance.
    pub u_i: CommittedInstance,
}

impl Clone for IVCProof {
    fn clone(&self) -> (r: Self)
        ensures
            r.i == self.i,
            r.z_0@ == self.z_0@,
            r.z_i@ == self.z_i@,
            r.W_i.E@ == self.W_i.E@ && r.W_i.W@ == self.W_i.W@ && r.W_i.rE == self.W_i.rE
                && r.W_i.rW == self.W_i.rW,
            r.U_i.cmE == self.U_i.cmE && r.U_i.u == self.U_i.u && r.U_i.cmW == self.U_i.cmW
                && r.U_i.x@ == self.U_i.x@,
            r.w_i.E@ == self.w_i.E@ && r.w_i.W@ == self.w_i.W@ && r.w_i.rE == self.w_i.rE
                && r.w_i.rW == self.w_i.rW,
            r.u_i.cmE == self.u_i.cmE && r.u_i.u == self.u_i.u && r.u_i.cmW == self.u_i.cmW
                && r.u_i.x@ == self.u_i.x@,
    {
        IVCProof {
            i: self.i,
            z_0: copy_fr_vec(&self.z_0),
            z_i: copy_fr_vec(&self.z_i),
            W_i: self.W_i.clone(),
            U_i: self.U_i.clone(),
            w_i: self.w_i.clone(),
            u_i: self.u_i.clone(),
        }
    }
}

/// What resuming a driver from a proof demands: one folded step at
/// least, every dimension in place against the relation and the step
/// function, zero blinding factors, a fresh incoming instance carrying
/// exactly the instance hash, and both pairs satisfying the relaxed
/// relation.
pub open spec fn proof_resumable<FC: FCircuit>(
    f: FC,
    r1cs: R1CS,
    cfg: PoseidonConfig,
    gens: nat,
    p: IVCProof,
) -> bool {
    &&& p.i >= 1
    &&& r1cs.l == 1
    &&& r1cs.A.n_cols >= 2
    &&& p.z_0@.len() == f.state_len_spec()
    &&& p.z_i@.len() == f.state_len_spec()
    &&& gens >= r1cs.A.n_rows
    &&& gens >= r1cs.A.n_cols - 2
    &&& p.u_i.x@.len() == 1
    &&& p.U_i.x@.len() == 1
    &&& p.w_i.E@.len() == r1cs.A.n_rows
    &&& p.w_i.W@.len() == r1cs.A.n_cols - 2
    &&& p.W_i.E@.len() == r1cs.A.n_rows
    &&& p.W_i.W@.len() == r1cs.A.n_cols - 2
    &&& fr_nat(p.w_i.rE) == 0
    &&& fr_nat(p.w_i.rW) == 0
    &&& fr_nat(p.W_i.rE) == 0
    &&& fr_nat(p.W_i.rW) == 0
    &&& fr_nat(p.u_i.u) == 1
    &&& g1_val(p.u_i.cmE) == 0
    &&& is_zero_seq(vals(p.w_i.E@))
    &&& vals(p.u_i.x@) == seq![
        instance_hash(
            cfg_id(cfg),
            p.i as nat,
            vals(p.z_0@),
            vals(p.z_i@),
            g1_val(p.U_i.cmE),
            fr_nat(p.U_i.u),
            g1_val(p.U_i.cmW),
            vals(p.U_i.x@),
        ),
    ]
    &&& relaxed_relation_holds(
        r1cs,
        fr_nat(p.U_i.u),
        vals(p.U_i.x@),
        vals(p.W_i.W@),
        vals(p.W_i.E@),
    )
    &&& relaxed_relation_holds(
        r1cs,
        fr_nat(p.u_i.u),
        vals(p.u_i.x@),
        vals(p.w_i.W@),
        vals(p.w_i.E@),
    )
}

/// What the verifier checks of an IVC proof against the relation and the
/// Poseidon configuration: at least one step, an incoming instance that
/// is fresh and carries exactly the instance hash, and both pairs
/// satisfying the relaxed relation.
pub open spec fn proof_acceptable(r1cs: R1CS, cfg: PoseidonConfig, p: IVCProof) -> bool {
    &&& p.i >= 1
    &&& p.u_i.x@.len() == 1
    &&& fr_nat(p.u_i.u) == 1
    &&& g1_val(p.u_i.cmE) == 0
    &&& is_zero_seq(vals(p.w_i.E@))
    &&& fr_nat(p.w_i.rE) == 0
    &&& fr_nat(p.w_i.rW) == 0
    &&& fr_nat(p.W_i.rE) == 0
    &&& fr_nat(p.W_i.rW) == 0
    &&& vals(p.u_i.x@) == seq![
        instance_hash(
            cfg_id(cfg),
            p.i as nat,
            vals(p.z_0@),
            vals(p.z_i@),
            g1_val(p.U_i.cmE),
            fr_nat(p.U_i.u),
            g1_val(p.U_i.cmW),
            vals(p.U_i.x@),
        ),
    ]
    &&& relaxed_relation_holds(
        r1cs,
        fr_nat(p.U_i.u),
        vals(p.U_i.x@),
        vals(p.W_i.W@),
        vals(p.W_i.E@),
    )
    &&& relaxed_relation_holds(
        r1cs,
        fr_nat(p.u_i.u),
        vals(p.u_i.x@),
        vals(p.w_i.W@),
        vals(p.w_i.E@),
    )
}

/// What the IVC verifier needs: the relation of the augmented circuit and
/// the Poseidon configuration, with the parameter hash.
pub struct VerifierParam {
    /// The R1CS of the augmented circuit.
    pub r1cs: R1CS,
    /// The Poseidon configuration.
    pub poseidon_config: PoseidonConfig,
    /// The hash of the public parameters.
    pub pp_hash: Fr,
}

impl<FC: FCircuit> IVC<FC> {
    /// The current running state as a proof that can be verified or
    /// resumed.
    pub fn ivc_proof(&self) -> (p: IVCProof)
        ensures
            p.i == self.i,
            p.z_0@ == self.z_0@,
            p.z_i@ == self.z_i@,
            p.W_i.E@ == self.W_i.E@ && p.W_i.W@ == self.W_i.W@ && p.W_i.rE == self.W_i.rE
                && p.W_i.rW == self.W_i.rW,
            p.U_i.cmE == self.U_i.cmE && p.U_i.u == self.U_i.u && p.U_i.cmW == self.U_i.cmW
                && p.U_i.x@ == self.U_i.x@,
            p.w_i.E@ == self.w_i.E@ && p.w_i.W@ == self.w_i.W@ && p.w_i.rE == self.w_i.rE
                && p.w_i.rW == self.w_i.rW,
            p.u_i.cmE == self.u_i.cmE && p.u_i.u == self.u_i.u && p.u_i.cmW == self.u_i.cmW
                && p.u_i.x@ == self.u_i.x@,
    {
        IVCProof {
            i: self.i,
            z_0: copy_fr_vec(&self.z_0),
            z_i: copy_fr_vec(&self.z_i),
            W_i: self.W_i.clone(),
            U_i: self.U_i.clone(),
            w_i: self.w_i.clone(),
            u_i: self.u_i.clone(),
        }
    }

    /// Hands the verifier its parameters, consuming the driver.
    pub fn into_verifier_param(self) -> (vp: VerifierParam)
        ensures
            vp.r1cs == self.r1cs,
            vp.poseidon_config == self.poseidon_config,
            vp.pp_hash == self.pp_hash,
    {
        VerifierParam {
            r1cs: self.r1cs,
            poseidon_config: self.poseidon_config,
            pp_hash: self.pp_hash,
        }
    }

    /// Rebuilds a driver from an IVC proof, re-checking everything the
    /// driver's invariant holds: the dimensions, the zero blindings, the
    /// freshness of the incoming instance, the instance hash and both
    /// relations.  Acceptance is exactly `proof_resumable`.
    pub fn from_ivc_proof(
        p: IVCProof,
        f_circuit: FC,
        r1cs: R1CS,
        poseidon_config: PoseidonConfig,
        pedersen_params: PedersenParams,
        pp_hash: Fr,
    ) -> (r: Result<IVC<FC>, Error>)
        requires
            r1cs.wf(),
        ensures
            r is Ok <==> proof_resumable(
                f_circuit,
                r1cs,
                poseidon_config,
                pedersen_params.generators@.len(),
                p,
            ),
            r matches Ok(ivc) ==> ivc.wf() && ivc.i == p.i,
    {
        if p.i == 0 {
            return Err(Error::NotEnoughSteps);
        }
        if r1cs.l != 1 || r1cs.A.n_cols < 2 {
            return Err(Error::ShapeMismatch("unexpected relation shape".to_string()));
        }
        if p.z_0.len() != f_circuit.state_len() || p.z_i.len() != f_circuit.state_len() {
            return Err(Error::ShapeMismatch("state length".to_string()));
        }
        if pedersen_params.generators.len() < r1cs.A.n_rows || pedersen_params.generators.len()
            < r1cs.A.n_cols - 2 {
            return Err(Error::ShapeMismatch("commitment key too short".to_string()));
        }
        if p.u_i.x.len() != 1 || p.U_i.x.len() != 1 {
            return Err(Error::ShapeMismatch("public input length".to_string()));
        }
        if p.w_i.E.len() != r1cs.A.n_rows || p.w_i.W.len() != r1cs.A.n_cols - 2 || p.W_i.E.len()
            != r1cs.A.n_rows || p.W_i.W.len() != r1cs.A.n_cols - 2 {
            return Err(Error::ShapeMismatch("witness length".to_string()));
        }
        if !p.w_i.rE.is_zero() || !p.w_i.rW.is_zero() || !p.W_i.rE.is_zero()
            || !p.W_i.rW.is_zero() {
            return Err(Error::IVCVerificationFail);
        }
        let one = Fr::one();
        if !p.u_i.u.equals(&one) || !p.u_i.cmE.equals(&G1::zero()) || !crate::linalg::is_zero_vec(
            &p.w_i.E,
        ) {
            return Err(Error::IVCVerificationFail);
        }
        proof {
            assert(vals(p.u_i.x@) =~= seq![fr_nat(p.u_i.x@[0])]);
        }
        let i_fr = Fr::from_u64(p.i);
        let h = p.U_i.hash(&poseidon_config, &i_fr, &p.z_0, &p.z_i);
        if !p.u_i.x[0].equals(&h) {
            proof {
                assert(fr_nat(p.u_i.x@[0]) != fr_nat(h));
                assert(vals(p.u_i.x@)[0] == fr_nat(p.u_i.x@[0]));
            }
            return Err(Error::IVCVerificationFail);
        }
        match r1cs.check_instance_relation(&p.W_i, &p.U_i) {
            Ok(()) => {},
            Err(e) => {
                return Err(e);
            },
        }
        match r1cs.check_instance_relation(&p.w_i, &p.u_i) {
            Ok(()) => {},
            Err(e) => {
                return Err(e);
            },
        }
        let ivc = IVC {
            r1cs,
            poseidon_config,
            pedersen_params,
            F: f_circuit,
            pp_hash,
            i: p.i,
            z_0: p.z_0,
            z_i: p.z_i,
            w_i: p.w_i,
            u_i: p.u_i,
            W_i: p.W_i,
            U_i: p.U_i,
        };
        proof {
            assert(vals(ivc.u_i.x@) =~= seq![
                instance_hash(
                    cfg_id(ivc.poseidon_config),
                    ivc.i as nat,
                    vals(ivc.z_0@),
                    vals(ivc.z_i@),
                    g1_val(ivc.U_i.cmE),
                    fr_nat(ivc.U_i.u),
                    g1_val(ivc.U_i.cmW),
                    vals(ivc.U_i.x@),
                ),
            ]);
        }
        Ok(ivc)
    }
}

/// Verifies an IVC proof: at least one folded step, a fresh incoming
/// instance (u = 1, cmE = 0, zero error vector) carrying exactly the
/// instance hash, zero blinding factors throughout, and both pairs
/// satisfying the relaxed relation.  Acceptance is exactly
/// `proof_acceptable`; a proof with i = 0 is rejected with
/// `NotEnoughSteps`.
pub fn ivc_verify(vp: &VerifierParam, p: &IVCProof) -> (r: Result<(), Error>)
    requires
        vp.r1cs.wf(),
    ensures
        r is Ok <==> proof_acceptable(vp.r1cs, vp.poseidon_config, *p),
        p.i == 0 ==> (r matches Err(e) && e is NotEnoughSteps),
{
    if p.i == 0 {
        return Err(Error::NotEnoughSteps);
    }
    match vp.r1cs.check_instance_relation(&p.W_i, &p.U_i) {
        Ok(()) => {},
        Err(e) => {
            return Err(e);
        },
    }
    match vp.r1cs.check_instance_relation(&p.w_i, &p.u_i) {
        Ok(()) => {},
        Err(e) => {
            return Err(e);
        },
    }
    if p.u_i.x.len() != 1 {
        return Err(Error::IVCVerificationFail);
    }
    let one = Fr::one();
    if !p.u_i.u.equals(&one) {
        return Err(Error::IVCVerificationFail);
    }
    if !p.u_i.cmE.equals(&G1::zero()) {
        return Err(Error::IVCVerificationFail);
    }
    if !crate::linalg::is_zero_vec(&p.w_i.E) {
        return Err(Error::IVCVerificationFail);
    }
    if !p.w_i.rE.is_zero() || !p.w_i.rW.is_zero() || !p.W_i.rE.is_zero() || !p.W_i.rW.is_zero() {
        return Err(Error::IVCVerificationFail);
    }
    proof {
        assert(vals(p.u_i.x@) =~= seq![fr_nat(p.u_i.x@[0])]);
    }
    let i_fr = Fr::from_u64(p.i);
    let h = p.U_i.hash(&vp.poseidon_config, &i_fr, &p.z_0, &p.z_i);
    proof {
        assert(fr_nat(h) == instance_hash(
            cfg_id(vp.poseidon_config),
            p.i as nat,
            vals(p.z_0@),
            vals(p.z_i@),
            g1_val(p.U_i.cmE),
            fr_nat(p.U_i.u),
            g1_val(p.U_i.cmW),
            vals(p.U_i.x@),
        ));
    }
    if !p.u_i.x[0].equals(&h) {
        proof {
            assert(fr_nat(p.u_i.x@[0]) != fr_nat(h));
            assert(vals(p.u_i.x@)[0] == fr_nat(p.u_i.x@[0]));
        }
        return Err(Error::IVCVerificationFail);
    }
    Ok(())
}

/// After any number of successful steps, the proof the driver hands out
/// verifies: the driver's invariant gives the verifier everything it
/// checks.
pub proof fn lemma_driver_proof_verifies<FC: FCircuit>(ivc: IVC<FC>, p: IVCProof)
    requires
        ivc.wf(),
        ivc.i >= 1,
        p.i == ivc.i,
        p.z_0@ == ivc.z_0@,
        p.z_i@ == ivc.z_i@,
        p.W_i.E@ == ivc.W_i.E@ && p.W_i.W@ == ivc.W_i.W@ && p.W_i.rE == ivc.W_i.rE
            && p.W_i.rW == ivc.W_i.rW,
        p.U_i.cmE == ivc.U_i.cmE && p.U_i.u == ivc.U_i.u && p.U_i.cmW == ivc.U_i.cmW
            && p.U_i.x@ == ivc.U_i.x@,
        p.w_i.E@ == ivc.w_i.E@ && p.w_i.W@ == ivc.w_i.W@ && p.w_i.rE == ivc.w_i.rE
            && p.w_i.rW == ivc.w_i.rW,
        p.u_i.cmE == ivc.u_i.cmE && p.u_i.u == ivc.u_i.u && p.u_i.cmW == ivc.u_i.cmW
            && p.u_i.x@ == ivc.u_i.x@,
    ensures
        proof_acceptable(ivc.r1cs, ivc.poseidon_config, p),
{
}

} // verus!
