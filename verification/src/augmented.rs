//! The augmented F circuit: one IVC step as a circuit.  It runs the user
//! step gadget, recomputes the instance hash of the running instance,
//! re-derives the folding challenge from an in-circuit transcript,
//! replays the scalar part of the folding verifier, and binds the single
//! public input x to the hash of the folded instance.  The base step
//! (i = 0) skips the folding checks.

use vstd::prelude::*;

use crate::field::{fr_nat, Fr};
use crate::frontend::FCircuit;
use crate::nonnative::{circuit_point_x_limbs, circuit_point_y_limbs, NonNativeAffineVar};
use crate::nova::CommittedInstance;
use crate::r1cs_var::{fv, fvals, fvar_from_le_bits, poseidon_hash_var, CsRef, FVar, TranscriptVar};
use crate::curve::{g1_val, G1};
use crate::transcript::PoseidonConfig;
use crate::Error;

verus! {

/// A committed instance allocated in the circuit: the scalar u, the
/// public inputs, and both commitments as non-native limbs.
pub struct CommittedInstanceVar {
    /// The relaxation scalar.
    pub u: FVar,
    /// The public inputs.
    pub x: Vec<FVar>,
    /// The limbs of cmE.
    pub cmE: NonNativeAffineVar,
    /// The limbs of cmW.
    pub cmW: NonNativeAffineVar,
}

impl CommittedInstanceVar {
    /// Allocates a committed instance as circuit witnesses; the variable
    /// values are the instance's values.
    pub fn new_witness(cs: &CsRef, ci: &CommittedInstance) -> (r: Result<
        CommittedInstanceVar,
        Error,
    >)
        ensures
            r matches Err(e) ==> e is Other,
            r matches Ok(v) ==> {
                &&& fv(v.u) == fr_nat(ci.u)
                &&& fvals(v.x@) == crate::linalg::vals(ci.x@)
                &&& fvals(v.cmE.x@) == circuit_point_x_limbs(g1_val(ci.cmE))
                &&& fvals(v.cmE.y@) == circuit_point_y_limbs(g1_val(ci.cmE))
                &&& fvals(v.cmW.x@) == circuit_point_x_limbs(g1_val(ci.cmW))
                &&& fvals(v.cmW.y@) == circuit_point_y_limbs(g1_val(ci.cmW))
            },
    {
        let u = match FVar::witness(cs, &ci.u) {
            Ok(v) => v,
            Err(e) => {
                return Err(e);
            },
        };
        let x = match witness_vec(cs, &ci.x) {
            Ok(v) => v,
            Err(e) => {
                return Err(e);
            },
        };
        let cme = match NonNativeAffineVar::new_witness(cs, &ci.cmE) {
            Ok(v) => v,
            Err(e) => {
                return Err(e);
            },
        };
        let cmw = match NonNativeAffineVar::new_witness(cs, &ci.cmW) {
            Ok(v) => v,
            Err(e) => {
                return Err(e);
            },
        };
        Ok(CommittedInstanceVar { u, x, cmE: cme, cmW: cmw })
    }

    /// Recomputes the instance hash in-circuit: the Poseidon gadget over
    /// the same packed input as the native hash, on variable values.
    pub fn hash(
        &self,
        cs: &CsRef,
        cfg: &PoseidonConfig,
        i: &FVar,
        z_0: &Vec<FVar>,
        z_i: &Vec<FVar>,
    ) -> (r: Result<FVar, Error>)
        ensures
            r matches Err(e) ==> e is Other,
            r matches Ok(h) ==> fv(h) == crate::r1cs_var::circuit_poseidon_of(
                crate::transcript::cfg_id(*cfg),
                seq![fv(*i)] + fvals(z_0@) + fvals(z_i@) + seq![fv(self.u)] + fvals(self.x@)
                    + fvals(self.cmE.x@) + fvals(self.cmE.y@) + fvals(self.cmW.x@) + fvals(
                    self.cmW.y@,
                ),
            ),
    {
        let mut input: Vec<FVar> = Vec::new();
        input.push(i.clone());
        append_var_vec(&mut input, z_0);
        append_var_vec(&mut input, z_i);
        input.push(self.u.clone());
        append_var_vec(&mut input, &self.x);
        append_var_vec(&mut input, &self.cmE.x);
        append_var_vec(&mut input, &self.cmE.y);
        append_var_vec(&mut input, &self.cmW.x);
        append_var_vec(&mut input, &self.cmW.y);
        proof {
            assert(fvals(input@) =~= seq![fv(*i)] + fvals(z_0@) + fvals(z_i@) + seq![fv(self.u)]
                + fvals(self.x@) + fvals(self.cmE.x@) + fvals(self.cmE.y@) + fvals(self.cmW.x@)
                + fvals(self.cmW.y@));
        }
        poseidon_hash_var(cs, cfg, &input)
    }
}

/// Allocates a vector of witnesses carrying the given values.
pub fn witness_vec(cs: &CsRef, xs: &Vec<Fr>) -> (r: Result<Vec<FVar>, Error>)
    ensures
        r matches Ok(v) ==> fvals(v@) == crate::linalg::vals(xs@),
        r matches Err(e) ==> e is Other,
{
    let mut out: Vec<FVar> = Vec::new();
    for i in 0..xs.len()
        invariant
            out@.len() == i,
            forall|j: int| 0 <= j < i ==> fv(#[trigger] out@[j]) == fr_nat(xs@[j]),
    {
        let v = match FVar::witness(cs, &xs[i]) {
            Ok(v) => v,
            Err(e) => {
                return Err(e);
            },
        };
        out.push(v);
    }
    proof {
        assert(fvals(out@) =~= crate::linalg::vals(xs@));
    }
    Ok(out)
}

/// Appends the entries of `src` to `dst`.
fn append_var_vec(dst: &mut Vec<FVar>, src: &Vec<FVar>)
    ensures
        final(dst)@ == old(dst)@ + src@,
{
    for i in 0..src.len()
        invariant
            dst@ =~= old(dst)@ + src@.take(i as int),
    {
        dst.push(src[i].clone());
    }
    proof {
        assert(dst@ =~= old(dst)@ + src@);
    }
}

/// Absorbs an in-circuit committed instance into the in-circuit
/// transcript: u, the public inputs, then the limbs of both commitments,
/// in the order of the native absorption.
fn absorb_instance_var(t: &mut TranscriptVar, ci: &CommittedInstanceVar) -> (r: Result<(), Error>)
    ensures
        r matches Err(e) ==> e is Other,
{
    match t.absorb(&ci.u) {
        Ok(()) => {},
        Err(e) => {
            return Err(e);
        },
    }
    match t.absorb_vec(&ci.x) {
        Ok(()) => {},
        Err(e) => {
            return Err(e);
        },
    }
    match t.absorb_vec(&ci.cmE.x) {
        Ok(()) => {},
        Err(e) => {
            return Err(e);
        },
    }
    match t.absorb_vec(&ci.cmE.y) {
        Ok(()) => {},
        Err(e) => {
            return Err(e);
        },
    }
    match t.absorb_vec(&ci.cmW.x) {
        Ok(()) => {},
        Err(e) => {
            return Err(e);
        },
    }
    match t.absorb_vec(&ci.cmW.y) {
        Ok(()) => {},
        Err(e) => {
            return Err(e);
        },
    }
    Ok(())
}

/// Synthesizes one augmented IVC step over the given constraint system,
/// with the concrete values of this step as the assignment:
///
/// - runs the user step gadget on z_i to obtain z_{i+1};
/// - outside the base step, enforces u_i.x = H(i, z_0, z_i, U_i),
///   re-derives the folding challenge from an in-circuit transcript fed
///   with (pp_hash, U_i, u_i, cmT) and enforces it equal to r, and
///   enforces the scalar part of the fold,
///   U_{i+1}.u = U_i.u + r·u_i.u and U_{i+1}.x = U_i.x + r·u_i.x;
/// - always enforces the public input x = H(i+1, z_0, z_{i+1}, U_{i+1}).
///
/// Its public input is the single field element x; everything else is
/// witness.  What the recorded constraints hold of the assignment is
/// checked at run time by the caller through the extracted relation.
pub fn synthesize_augmented_circuit<FC: FCircuit>(
    cs: &CsRef,
    cfg: &PoseidonConfig,
    pp_hash: &Fr,
    i: u64,
    z_0: &Vec<Fr>,
    z_i: &Vec<Fr>,
    external_inputs: &Vec<Fr>,
    u_i: &CommittedInstance,
    U_i: &CommittedInstance,
    U_i1: &CommittedInstance,
    cmT: &G1,
    r: &Fr,
    x: &Fr,
    f_circuit: &FC,
) -> (res: Result<(), Error>)
    requires
        z_0@.len() == f_circuit.state_len_spec(),
        z_i@.len() == f_circuit.state_len_spec(),
        external_inputs@.len() == f_circuit.external_inputs_len_spec(),
        i <= usize::MAX,
    ensures
        res matches Err(e) ==> (e is Other || e is ShapeMismatch),
{
    let x_var = match FVar::input(cs, x) {
        Ok(v) => v,
        Err(e) => {
            return Err(e);
        },
    };
    let i_var = match FVar::witness(cs, &Fr::from_u64(i)) {
        Ok(v) => v,
        Err(e) => {
            return Err(e);
        },
    };
    let z_0_var = match witness_vec(cs, z_0) {
        Ok(v) => v,
        Err(e) => {
            return Err(e);
        },
    };
    let z_i_var = match witness_vec(cs, z_i) {
        Ok(v) => v,
        Err(e) => {
            return Err(e);
        },
    };
    let ext_var = match witness_vec(cs, external_inputs) {
        Ok(v) => v,
        Err(e) => {
            return Err(e);
        },
    };
    let u_i_var = match CommittedInstanceVar::new_witness(cs, u_i) {
        Ok(v) => v,
        Err(e) => {
            return Err(e);
        },
    };
    let U_i_var = match CommittedInstanceVar::new_witness(cs, U_i) {
        Ok(v) => v,
        Err(e) => {
            return Err(e);
        },
    };
    let U_i1_var = match CommittedInstanceVar::new_witness(cs, U_i1) {
        Ok(v) => v,
        Err(e) => {
            return Err(e);
        },
    };
    let cmT_var = match NonNativeAffineVar::new_witness(cs, cmT) {
        Ok(v) => v,
        Err(e) => {
            return Err(e);
        },
    };
    let r_var = match FVar::witness(cs, r) {
        Ok(v) => v,
        Err(e) => {
            return Err(e);
        },
    };
    let pp_hash_var = match FVar::witness(cs, pp_hash) {
        Ok(v) => v,
        Err(e) => {
            return Err(e);
        },
    };

    // the user step: z_{i+1} from z_i
    proof {
        assert(z_i_var@.len() == fvals(z_i_var@).len());
        assert(fvals(z_i_var@).len() == crate::linalg::vals(z_i@).len());
        assert(crate::linalg::vals(z_i@).len() == z_i@.len());
        assert(ext_var@.len() == fvals(ext_var@).len());
        assert(fvals(ext_var@).len() == crate::linalg::vals(external_inputs@).len());
        assert(crate::linalg::vals(external_inputs@).len() == external_inputs@.len());
    }
    let i_usize = i as usize;
    let z_i1_var = match f_circuit.generate_step_constraints(cs, i_usize, &z_i_var, &ext_var) {
        Ok(v) => v,
        Err(e) => {
            return Err(e);
        },
    };

    let zero_var = FVar::constant(&Fr::zero());
    let is_basecase = match i_var.is_eq(&zero_var) {
        Ok(b) => b,
        Err(e) => {
            return Err(e);
        },
    };
    let not_basecase = is_basecase.not();

    // outside the base step: u_i.x must be the hash of the running instance
    let h_running = match U_i_var.hash(cs, cfg, &i_var, &z_0_var, &z_i_var) {
        Ok(h) => h,
        Err(e) => {
            return Err(e);
        },
    };
    if u_i_var.x.len() != 1 {
        return Err(Error::ShapeMismatch("one public input expected".to_string()));
    }
    match u_i_var.x[0].conditional_enforce_equal(&h_running, &not_basecase) {
        Ok(()) => {},
        Err(e) => {
            return Err(e);
        },
    }

    // outside the base step: re-derive the folding challenge in-circuit
    let mut t_var = TranscriptVar::new(cs, cfg);
    match t_var.absorb(&pp_hash_var) {
        Ok(()) => {},
        Err(e) => {
            return Err(e);
        },
    }
    match absorb_instance_var(&mut t_var, &U_i_var) {
        Ok(()) => {},
        Err(e) => {
            return Err(e);
        },
    }
    match absorb_instance_var(&mut t_var, &u_i_var) {
        Ok(()) => {},
        Err(e) => {
            return Err(e);
        },
    }
    match t_var.absorb_vec(&cmT_var.x) {
        Ok(()) => {},
        Err(e) => {
            return Err(e);
        },
    }
    match t_var.absorb_vec(&cmT_var.y) {
        Ok(()) => {},
        Err(e) => {
            return Err(e);
        },
    }
    let r_bits = match t_var.get_challenge_nbits(crate::N_BITS_RO) {
        Ok(b) => b,
        Err(e) => {
            return Err(e);
        },
    };
    let r_derived = match fvar_from_le_bits(&r_bits) {
        Ok(v) => v,
        Err(e) => {
            return Err(e);
        },
    };
    match r_var.conditional_enforce_equal(&r_derived, &not_basecase) {
        Ok(()) => {},
        Err(e) => {
            return Err(e);
        },
    }

    // outside the base step: the scalar part of the folding verifier
    let u_folded = U_i_var.u.add(&r_var.mul(&u_i_var.u));
    match U_i1_var.u.conditional_enforce_equal(&u_folded, &not_basecase) {
        Ok(()) => {},
        Err(e) => {
            return Err(e);
        },
    }
    if U_i1_var.x.len() != U_i_var.x.len() || U_i_var.x.len() != u_i_var.x.len() {
        return Err(Error::ShapeMismatch("public input lengths differ".to_string()));
    }
    for j in 0..U_i1_var.x.len()
        invariant
            U_i1_var.x@.len() == U_i_var.x@.len(),
            U_i_var.x@.len() == u_i_var.x@.len(),
    {
        let x_folded = U_i_var.x[j].add(&r_var.mul(&u_i_var.x[j]));
        match U_i1_var.x[j].conditional_enforce_equal(&x_folded, &not_basecase) {
            Ok(()) => {},
            Err(e) => {
                return Err(e);
            },
        }
    }

    // always: the public input is the hash of the folded instance
    let one_var = FVar::constant(&Fr::one());
    let i_plus_one = i_var.add(&one_var);
    let h_next = match U_i1_var.hash(cs, cfg, &i_plus_one, &z_0_var, &z_i1_var) {
        Ok(h) => h,
        Err(e) => {
            return Err(e);
        },
    };
    match x_var.enforce_equal(&h_next) {
        Ok(()) => {},
        Err(e) => {
            return Err(e);
        },
    }
    Ok(())
}

} // verus!
