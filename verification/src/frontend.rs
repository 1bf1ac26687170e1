//! The user-facing step-function interface: an `FCircuit` supplies the
//! native step z_{i+1} = F(i, z_i, ext) and its in-circuit counterpart.
//! Both carry the same specification `step_spec`, so every implementation
//! is proved to compute the same state transition natively and inside the
//! circuit.

use vstd::prelude::*;

use crate::field::{fr_nat, p_add, p_mul, Fr};
use crate::linalg::vals;
use crate::r1cs_var::{fv, fvals, CsRef, FVar};
use crate::Error;

verus! {

/// A step function F: the state transition the IVC folds.  The native
/// step and the in-circuit step both must compute `step_spec`, so the two
/// agree on all inputs.
pub trait FCircuit: Sized {
    /// The number of state elements.
    spec fn state_len_spec(&self) -> nat;

    /// The number of external (per-step) input elements.
    spec fn external_inputs_len_spec(&self) -> nat;

    /// What one step computes, on representatives; the result must have
    /// `state_len_spec` entries.
    spec fn step_spec(&self, i: nat, z: Seq<nat>, ext: Seq<nat>) -> Seq<nat>;

    /// The number of state elements.
    fn state_len(&self) -> (r: usize)
        ensures
            r == self.state_len_spec(),
    ;

    /// The number of external input elements.
    fn external_inputs_len(&self) -> (r: usize)
        ensures
            r == self.external_inputs_len_spec(),
    ;

    /// Computes the next state natively.
    fn step_native(&self, i: usize, z_i: &Vec<Fr>, external_inputs: &Vec<Fr>) -> (r: Result<
        Vec<Fr>,
        Error,
    >)
        requires
            z_i@.len() == self.state_len_spec(),
            external_inputs@.len() == self.external_inputs_len_spec(),
        ensures
            r is Ok,
            r matches Ok(v) ==> vals(v@) == self.step_spec(
                i as nat,
                vals(z_i@),
                vals(external_inputs@),
            ) && v@.len() == self.state_len_spec(),
    ;

    /// Synthesizes the step over circuit variables; the values computed
    /// are the same function of the input values as the native step.
    fn generate_step_constraints(
        &self,
        cs: &CsRef,
        i: usize,
        z_i: &Vec<FVar>,
        external_inputs: &Vec<FVar>,
    ) -> (r: Result<Vec<FVar>, Error>)
        requires
            z_i@.len() == self.state_len_spec(),
            external_inputs@.len() == self.external_inputs_len_spec(),
        ensures
            r matches Ok(v) ==> fvals(v@) == self.step_spec(
                i as nat,
                fvals(z_i@),
                fvals(external_inputs@),
            ) && v@.len() == self.state_len_spec(),
            r matches Err(e) ==> (e is Other || e is ShapeMismatch),
    ;
}

/// The cubic test step: F(x) = x³ + x + 5 over a one-element state.
pub struct CubicFCircuit {}

/// What the cubic step computes on one representative.
pub open spec fn cubic_step(x: nat) -> nat {
    p_add(p_add(p_mul(p_mul(x, x), x), x), 5)
}

impl FCircuit for CubicFCircuit {
    open spec fn state_len_spec(&self) -> nat {
        1
    }

    open spec fn external_inputs_len_spec(&self) -> nat {
        0
    }

    open spec fn step_spec(&self, i: nat, z: Seq<nat>, ext: Seq<nat>) -> Seq<nat> {
        seq![cubic_step(z[0])]
    }

    fn state_len(&self) -> (r: usize) {
        1
    }

    fn external_inputs_len(&self) -> (r: usize) {
        0
    }

    fn step_native(&self, i: usize, z_i: &Vec<Fr>, external_inputs: &Vec<Fr>) -> (r: Result<
        Vec<Fr>,
        Error,
    >) {
        let x = &z_i[0];
        let five = Fr::from_u64(5);
        let out = x.mul(x).mul(x).add(x).add(&five);
        let mut v: Vec<Fr> = Vec::new();
        v.push(out);
        proof {
            assert(vals(v@) =~= seq![cubic_step(fr_nat(z_i@[0]))]);
            assert(vals(z_i@)[0] == fr_nat(z_i@[0]));
        }
        Ok(v)
    }

    fn generate_step_constraints(
        &self,
        cs: &CsRef,
        i: usize,
        z_i: &Vec<FVar>,
        external_inputs: &Vec<FVar>,
    ) -> (r: Result<Vec<FVar>, Error>) {
        let x = &z_i[0];
        let five = FVar::constant(&Fr::from_u64(5));
        let out = x.mul(x).mul(x).add(x).add(&five);
        let mut v: Vec<FVar> = Vec::new();
        v.push(out);
        proof {
            assert(fvals(v@) =~= seq![cubic_step(fv(z_i@[0]))]);
            assert(fvals(z_i@)[0] == fv(z_i@[0]));
        }
        Ok(v)
    }
}

/// The identity step over a state of the given length: the state is kept
/// as it is.
pub struct IdentityFCircuit {
    /// The number of state elements.
    pub len: usize,
}

impl FCircuit for IdentityFCircuit {
    open spec fn state_len_spec(&self) -> nat {
        self.len as nat
    }

    open spec fn external_inputs_len_spec(&self) -> nat {
        0
    }

    open spec fn step_spec(&self, i: nat, z: Seq<nat>, ext: Seq<nat>) -> Seq<nat> {
        z
    }

    fn state_len(&self) -> (r: usize) {
        self.len
    }

    fn external_inputs_len(&self) -> (r: usize) {
        0
    }

    fn step_native(&self, i: usize, z_i: &Vec<Fr>, external_inputs: &Vec<Fr>) -> (r: Result<
        Vec<Fr>,
        Error,
    >) {
        let v = crate::linalg::copy_fr_vec(z_i);
        Ok(v)
    }

    fn generate_step_constraints(
        &self,
        cs: &CsRef,
        i: usize,
        z_i: &Vec<FVar>,
        external_inputs: &Vec<FVar>,
    ) -> (r: Result<Vec<FVar>, Error>) {
        let mut v: Vec<FVar> = Vec::new();
        for k in 0..z_i.len()
            invariant
                v@ =~= z_i@.take(k as int),
        {
            v.push(z_i[k].clone());
        }
        proof {
            assert(v@ =~= z_i@);
        }
        Ok(v)
    }
}

/// The iterated-power step of a configurable size: the next state is
/// z[0] raised to the `n_constraints`-th power, computed by
/// `n_constraints − 1` sequential multiplications, so the synthesized
/// step contributes that many constraints.
pub struct CustomFCircuit {
    /// The number of multiplications plus one; one constraint per
    /// multiplication.
    pub n_constraints: usize,
}

/// x^k on representatives, with x^0 read as the reduced x to match a
/// multiplication-free circuit.
pub open spec fn pow_step(x: nat, k: nat) -> nat
    decreases k,
{
    if k <= 1 {
        x
    } else {
        p_mul(pow_step(x, (k - 1) as nat), x)
    }
}

impl FCircuit for CustomFCircuit {
    open spec fn state_len_spec(&self) -> nat {
        1
    }

    open spec fn external_inputs_len_spec(&self) -> nat {
        0
    }

    open spec fn step_spec(&self, i: nat, z: Seq<nat>, ext: Seq<nat>) -> Seq<nat> {
        seq![pow_step(z[0], self.n_constraints as nat)]
    }

    fn state_len(&self) -> (r: usize) {
        1
    }

    fn external_inputs_len(&self) -> (r: usize) {
        0
    }

    fn step_native(&self, i: usize, z_i: &Vec<Fr>, external_inputs: &Vec<Fr>) -> (r: Result<
        Vec<Fr>,
        Error,
    >) {
        let x = &z_i[0];
        let mut acc = *x;
        let mut k: usize = 1;
        while k < self.n_constraints
            invariant
                1 <= k,
                k <= self.n_constraints || k == 1,
                z_i@.len() == 1,
                fr_nat(acc) == pow_step(fr_nat(z_i@[0]), k as nat),
            decreases self.n_constraints - k,
        {
            acc = acc.mul(&z_i[0]);
            k += 1;
            proof {
                assert(pow_step(fr_nat(z_i@[0]), k as nat) == p_mul(
                    pow_step(fr_nat(z_i@[0]), (k - 1) as nat),
                    fr_nat(z_i@[0]),
                ));
            }
        }
        let mut v: Vec<Fr> = Vec::new();
        v.push(acc);
        proof {
            if self.n_constraints == 0 {
                assert(fr_nat(acc) == pow_step(fr_nat(z_i@[0]), self.n_constraints as nat));
            }
            assert(vals(v@) =~= seq![pow_step(fr_nat(z_i@[0]), self.n_constraints as nat)]);
            assert(vals(z_i@)[0] == fr_nat(z_i@[0]));
        }
        Ok(v)
    }

    fn generate_step_constraints(
        &self,
        cs: &CsRef,
        i: usize,
        z_i: &Vec<FVar>,
        external_inputs: &Vec<FVar>,
    ) -> (r: Result<Vec<FVar>, Error>) {
        let x = &z_i[0];
        let mut acc = x.clone();
        let mut k: usize = 1;
        while k < self.n_constraints
            invariant
                1 <= k,
                k <= self.n_constraints || k == 1,
                z_i@.len() == 1,
                fv(acc) == pow_step(fv(z_i@[0]), k as nat),
            decreases self.n_constraints - k,
        {
            acc = acc.mul(&z_i[0]);
            k += 1;
            proof {
                assert(pow_step(fv(z_i@[0]), k as nat) == p_mul(
                    pow_step(fv(z_i@[0]), (k - 1) as nat),
                    fv(z_i@[0]),
                ));
            }
        }
        let mut v: Vec<FVar> = Vec::new();
        v.push(acc);
        proof {
            if self.n_constraints == 0 {
                assert(fv(acc) == pow_step(fv(z_i@[0]), self.n_constraints as nat));
            }
            assert(fvals(v@) =~= seq![pow_step(fv(z_i@[0]), self.n_constraints as nat)]);
            assert(fvals(z_i@)[0] == fv(z_i@[0]));
        }
        Ok(v)
    }
}

} // verus!
