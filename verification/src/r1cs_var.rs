//! The in-circuit layer: a handle on an arkworks constraint system and
//! variables over it.  A variable is opaque; contracts read it through the
//! abstraction `fv`, the value assigned to it.  The constraint systems
//! this library creates are always in proving mode, so every variable
//! carries its assignment.  Contracts here speak of values, never of the
//! constraints recorded: what a synthesized circuit enforces is checked at
//! run time through `is_satisfied` and the extracted relation.

use vstd::prelude::*;

use crate::field::{fr_nat, p_add, p_mul, p_sub, Fr};
use crate::transcript::{cfg_id, PoseidonConfig};
use crate::Error;

verus! {

/// A handle on a constraint system over the scalar field, in proving
/// mode.
#[verifier::external_body]
pub struct CsRef {
    pub(crate) inner: ark_relations::r1cs::ConstraintSystemRef<ark_bn254::Fr>,
}

impl Clone for CsRef {
    /// Relies on the arkworks handle being shared: the clone refers to
    /// the same constraint system.
    #[verifier::external_body]
    fn clone(&self) -> (r: Self)
        ensures
            r == *self,
    {
        CsRef { inner: self.inner.clone() }
    }
}

impl CsRef {
    /// Relies on the arkworks constructor: a fresh constraint system in
    /// proving mode, with matrices recorded.
    #[verifier::external_body]
    pub fn new() -> CsRef {
        CsRef { inner: ark_relations::r1cs::ConstraintSystem::<ark_bn254::Fr>::new_ref() }
    }

    /// Relies on the arkworks constraint counter.
    #[verifier::external_body]
    pub fn num_constraints(&self) -> usize {
        self.inner.num_constraints()
    }

    /// Relies on the arkworks instance-variable counter (it counts the
    /// leading constant one).
    #[verifier::external_body]
    pub fn num_instance_variables(&self) -> usize {
        self.inner.num_instance_variables()
    }

    /// Relies on the arkworks witness-variable counter.
    #[verifier::external_body]
    pub fn num_witness_variables(&self) -> usize {
        self.inner.num_witness_variables()
    }

    /// Relies on the arkworks satisfaction check of the recorded
    /// constraints against the recorded assignment.
    #[verifier::external_body]
    pub fn is_satisfied(&self) -> (r: Result<bool, Error>) {
        self.inner.is_satisfied().map_err(|e| Error::Other(format!("{}", e)))
    }

    /// Relies on arkworks' finalize, which inlines linear combinations in
    /// place.
    #[verifier::external_body]
    pub fn finalize(&self) {
        self.inner.finalize()
    }

    /// Relies on arkworks' matrix extraction: the A, B, C matrices of the
    /// synthesized system in (value, column) form, with the dimensions and
    /// the public-input count; it answers None before synthesis ends.
    #[verifier::external_body]
    pub fn to_matrices(&self) -> (r: Option<
        (usize, usize, usize, Vec<Vec<(Fr, usize)>>, Vec<Vec<(Fr, usize)>>, Vec<
            Vec<(Fr, usize)>,
        >),
    >) {
        let m = self.inner.to_matrices()?;
        let n_rows = self.inner.num_constraints();
        let n_cols = self.inner.num_instance_variables() + self.inner.num_witness_variables();
        let l = self.inner.num_instance_variables() - 1;
        let conv = |mat: Vec<Vec<(ark_bn254::Fr, usize)>>| -> Vec<Vec<(Fr, usize)>> {
            mat.into_iter()
                .map(|row| row.into_iter().map(|(v, c)| (Fr { inner: v }, c)).collect())
                .collect()
        };
        Some((l, n_rows, n_cols, conv(m.a), conv(m.b), conv(m.c)))
    }

    /// Relies on arkworks' recorded assignments: the instance assignment
    /// (with its leading one) followed by the witness assignment.
    #[verifier::external_body]
    pub fn full_assignment(&self) -> (r: (Vec<Fr>, Vec<Fr>)) {
        let cs = self.inner.borrow().unwrap();
        (
            cs.instance_assignment.iter().map(|v| Fr { inner: *v }).collect(),
            cs.witness_assignment.iter().map(|v| Fr { inner: *v }).collect(),
        )
    }
}

/// A variable over the constraint system: a field element of the circuit.
#[verifier::external_body]
pub struct FVar {
    pub(crate) inner: ark_r1cs_std::fields::fp::FpVar<ark_bn254::Fr>,
}

impl Clone for FVar {
    /// Relies on the arkworks variable being a handle: the clone is the
    /// same variable.
    #[verifier::external_body]
    fn clone(&self) -> (r: Self)
        ensures
            r == *self,
    {
        FVar { inner: self.inner.clone() }
    }
}

/// The value assigned to a circuit variable.
pub uninterp spec fn fv(v: FVar) -> nat;

/// The values assigned to a vector of circuit variables.
pub open spec fn fvals(s: Seq<FVar>) -> Seq<nat> {
    s.map_values(|v: FVar| fv(v))
}

/// A boolean variable of the circuit.
#[verifier::external_body]
pub struct BoolVar {
    pub(crate) inner: ark_r1cs_std::boolean::Boolean<ark_bn254::Fr>,
}

impl Clone for BoolVar {
    /// Relies on the arkworks variable being a handle: the clone is the
    /// same variable.
    #[verifier::external_body]
    fn clone(&self) -> (r: Self)
        ensures
            r == *self,
    {
        BoolVar { inner: self.inner.clone() }
    }
}

/// The value assigned to a boolean circuit variable.
pub uninterp spec fn bv(v: BoolVar) -> bool;

impl FVar {
    /// Relies on arkworks' witness allocation: the variable carries the
    /// given value.
    #[verifier::external_body]
    pub fn witness(cs: &CsRef, x: &Fr) -> (r: Result<FVar, Error>)
        ensures
            r matches Ok(v) ==> fv(v) == fr_nat(*x),
            r matches Err(e) ==> e is Other,
    {
        match ark_r1cs_std::alloc::AllocVar::new_witness(cs.inner.clone(), || Ok(x.inner)) {
            Ok(v) => Ok(FVar { inner: v }),
            Err(e) => Err(Error::Other(format!("{}", e))),
        }
    }

    /// Relies on arkworks' public-input allocation: the variable carries
    /// the given value.
    #[verifier::external_body]
    pub fn input(cs: &CsRef, x: &Fr) -> (r: Result<FVar, Error>)
        ensures
            r matches Ok(v) ==> fv(v) == fr_nat(*x),
            r matches Err(e) ==> e is Other,
    {
        match ark_r1cs_std::alloc::AllocVar::new_input(cs.inner.clone(), || Ok(x.inner)) {
            Ok(v) => Ok(FVar { inner: v }),
            Err(e) => Err(Error::Other(format!("{}", e))),
        }
    }

    /// Relies on arkworks' value lookup: the assigned value of the
    /// variable, as the abstraction `fv` reads it.
    #[verifier::external_body]
    pub fn value(&self) -> (r: Result<Fr, Error>)
        ensures
            r matches Ok(v) ==> fr_nat(v) == fv(*self),
            r matches Err(e) ==> e is Other,
    {
        match ark_r1cs_std::R1CSVar::value(&self.inner) {
            Ok(v) => Ok(Fr { inner: v }),
            Err(e) => Err(Error::Other(format!("{}", e))),
        }
    }

    /// Relies on arkworks' constants: the variable carries the given
    /// value and adds nothing to the system.
    #[verifier::external_body]
    pub fn constant(x: &Fr) -> (r: FVar)
        ensures
            fv(r) == fr_nat(*x),
    {
        FVar { inner: ark_r1cs_std::fields::fp::FpVar::Constant(x.inner) }
    }

    /// Relies on the arkworks field-variable addition: the value of the
    /// sum is the modular sum of the values.
    #[verifier::external_body]
    pub fn add(&self, other: &FVar) -> (r: FVar)
        ensures
            fv(r) == p_add(fv(*self), fv(*other)),
    {
        FVar { inner: &self.inner + &other.inner }
    }

    /// Relies on the arkworks field-variable subtraction.
    #[verifier::external_body]
    pub fn sub(&self, other: &FVar) -> (r: FVar)
        ensures
            fv(r) == p_sub(fv(*self), fv(*other)),
    {
        FVar { inner: &self.inner - &other.inner }
    }

    /// Relies on the arkworks field-variable multiplication: the value of
    /// the product is the modular product of the values.
    #[verifier::external_body]
    pub fn mul(&self, other: &FVar) -> (r: FVar)
        ensures
            fv(r) == p_mul(fv(*self), fv(*other)),
    {
        FVar { inner: &self.inner * &other.inner }
    }

    /// Relies on arkworks' equality enforcement: it records the
    /// constraint; nothing is promised of the values.
    #[verifier::external_body]
    pub fn enforce_equal(&self, other: &FVar) -> (r: Result<(), Error>)
        ensures
            r matches Err(e) ==> e is Other,
    {
        ark_r1cs_std::eq::EqGadget::enforce_equal(&self.inner, &other.inner).map_err(
            |e| Error::Other(format!("{}", e)),
        )
    }

    /// Relies on arkworks' equality test gadget: the boolean variable
    /// carries whether the two values are equal.
    #[verifier::external_body]
    pub fn is_eq(&self, other: &FVar) -> (r: Result<BoolVar, Error>)
        ensures
            r matches Ok(b) ==> (bv(b) <==> fv(*self) == fv(*other)),
            r matches Err(e) ==> e is Other,
    {
        match ark_r1cs_std::eq::EqGadget::is_eq(&self.inner, &other.inner) {
            Ok(b) => Ok(BoolVar { inner: b }),
            Err(e) => Err(Error::Other(format!("{}", e))),
        }
    }

    /// Relies on arkworks' conditional equality enforcement: it records
    /// the constraint, active when the condition variable is true;
    /// nothing is promised of the values.
    #[verifier::external_body]
    pub fn conditional_enforce_equal(&self, other: &FVar, cond: &BoolVar) -> (r: Result<
        (),
        Error,
    >)
        ensures
            r matches Err(e) ==> e is Other,
    {
        ark_r1cs_std::eq::EqGadget::conditional_enforce_equal(
            &self.inner,
            &other.inner,
            &cond.inner,
        ).map_err(|e| Error::Other(format!("{}", e)))
    }
}

impl BoolVar {
    /// Relies on arkworks' boolean negation gadget.
    #[verifier::external_body]
    pub fn not(&self) -> (r: BoolVar)
        ensures
            bv(r) == !bv(*self),
    {
        BoolVar { inner: self.inner.clone().not() }
    }
}

/// What squeezing one field element from the in-circuit sponge returns,
/// as a function of the configuration and the in-circuit history.  The
/// native counterpart has its own name: that the two agree is a property
/// of the two arkworks implementations that nothing here states.
pub uninterp spec fn circuit_challenge_of(cfg: nat, hist: Seq<int>) -> nat;

/// The value of the in-circuit Poseidon hash on a packed input: a fresh
/// in-circuit sponge absorbs the input and squeezes one element.
pub open spec fn circuit_poseidon_of(cfg: nat, input: Seq<nat>) -> nat {
    circuit_challenge_of(cfg, crate::transcript::absorbed(input))
}

/// The in-circuit duplex sponge.
#[verifier::external_body]
pub struct TranscriptVar {
    pub(crate) sponge: ark_crypto_primitives::sponge::poseidon::constraints::PoseidonSpongeVar<
        ark_bn254::Fr,
    >,
}

/// The configuration an in-circuit transcript was built with.
pub uninterp spec fn tv_cfg(t: TranscriptVar) -> nat;

/// The history of an in-circuit transcript: absorbed values and squeeze
/// markers, in order, on the same scale as the native history.
pub uninterp spec fn tv_hist(t: TranscriptVar) -> Seq<int>;

impl TranscriptVar {
    /// Relies on the arkworks in-circuit Poseidon sponge constructor: a
    /// fresh sponge has seen nothing.
    #[verifier::external_body]
    pub fn new(cs: &CsRef, cfg: &PoseidonConfig) -> (t: TranscriptVar)
        ensures
            tv_cfg(t) == cfg_id(*cfg),
            tv_hist(t) == Seq::<int>::empty(),
    {
        TranscriptVar {
            sponge: <ark_crypto_primitives::sponge::poseidon::constraints::PoseidonSpongeVar<
                ark_bn254::Fr,
            > as ark_crypto_primitives::sponge::constraints::CryptographicSpongeVar<
                ark_bn254::Fr,
                ark_crypto_primitives::sponge::poseidon::PoseidonSponge<ark_bn254::Fr>,
            >>::new(cs.inner.clone(), &cfg.inner),
        }
    }

    /// Relies on the arkworks in-circuit absorb of one variable: the
    /// sponge state afterwards depends only on the state before and the
    /// absorbed value.
    #[verifier::external_body]
    pub fn absorb(&mut self, x: &FVar) -> (r: Result<(), Error>)
        ensures
            r matches Err(e) ==> e is Other,
            r is Ok ==> {
                &&& tv_cfg(*final(self)) == tv_cfg(*old(self))
                &&& tv_hist(*final(self)) == tv_hist(*old(self)).push(fv(*x) as int)
            },
    {
        ark_crypto_primitives::sponge::constraints::CryptographicSpongeVar::<
            ark_bn254::Fr,
            ark_crypto_primitives::sponge::poseidon::PoseidonSponge<ark_bn254::Fr>,
        >::absorb(&mut self.sponge, &x.inner).map_err(|e| Error::Other(format!("{}", e)))
    }

    /// Absorbs a vector of variables, in order.
    pub fn absorb_vec(&mut self, xs: &Vec<FVar>) -> (r: Result<(), Error>)
        ensures
            r matches Err(e) ==> e is Other,
            r is Ok ==> {
                &&& tv_cfg(*final(self)) == tv_cfg(*old(self))
                &&& tv_hist(*final(self)) == tv_hist(*old(self)) + crate::transcript::absorbed(
                    fvals(xs@),
                )
            },
    {
        let ghost c0 = tv_cfg(*self);
        let ghost h0 = tv_hist(*self);
        for i in 0..xs.len()
            invariant
                tv_cfg(*self) == c0,
                tv_hist(*self) =~= h0 + crate::transcript::absorbed(fvals(xs@.take(i as int))),
        {
            match self.absorb(&xs[i]) {
                Ok(()) => {},
                Err(e) => {
                    return Err(e);
                },
            }
            proof {
                assert(crate::transcript::absorbed(fvals(xs@.take(i + 1))) =~=
                    crate::transcript::absorbed(fvals(xs@.take(i as int))).push(
                    fv(xs@[i as int]) as int,
                ));
            }
        }
        proof {
            assert(xs@.take(xs@.len() as int) =~= xs@);
        }
        Ok(())
    }

    /// Relies on the arkworks in-circuit squeeze of one field element:
    /// the value squeezed depends only on the configuration and the
    /// state, and the squeeze advances the state.
    #[verifier::external_body]
    pub fn get_challenge(&mut self) -> (r: Result<FVar, Error>)
        ensures
            r matches Err(e) ==> e is Other,
            r matches Ok(v) ==> {
                &&& tv_cfg(*final(self)) == tv_cfg(*old(self))
                &&& tv_hist(*final(self)) == tv_hist(*old(self)).push(
                    crate::transcript::squeeze_marker(),
                )
                &&& fv(v) == circuit_challenge_of(tv_cfg(*old(self)), tv_hist(*old(self)))
            },
    {
        match ark_crypto_primitives::sponge::constraints::CryptographicSpongeVar::<
            ark_bn254::Fr,
            ark_crypto_primitives::sponge::poseidon::PoseidonSponge<ark_bn254::Fr>,
        >::squeeze_field_elements(&mut self.sponge, 1) {
            Ok(mut out) => Ok(FVar { inner: out.remove(0) }),
            Err(e) => Err(Error::Other(format!("{}", e))),
        }
    }

    /// Relies on the arkworks in-circuit squeeze of n bits: the bits
    /// squeezed depend only on the configuration, the state and n, and
    /// the squeeze advances the state.
    #[verifier::external_body]
    pub fn get_challenge_nbits(&mut self, n: usize) -> (r: Result<Vec<BoolVar>, Error>)
        ensures
            r matches Err(e) ==> e is Other,
            r matches Ok(v) ==> {
                &&& tv_cfg(*final(self)) == tv_cfg(*old(self))
                &&& tv_hist(*final(self)) == tv_hist(*old(self)).push(
                    crate::transcript::squeeze_bits_marker(n as nat),
                )
                &&& bvals(v@) == circuit_challenge_bits_of(
                    tv_cfg(*old(self)),
                    tv_hist(*old(self)),
                    n as nat,
                )
                &&& v@.len() == n
            },
    {
        match ark_crypto_primitives::sponge::constraints::CryptographicSpongeVar::<
            ark_bn254::Fr,
            ark_crypto_primitives::sponge::poseidon::PoseidonSponge<ark_bn254::Fr>,
        >::squeeze_bits(&mut self.sponge, n) {
            Ok(out) => Ok(out.into_iter().map(|b| BoolVar { inner: b }).collect()),
            Err(e) => Err(Error::Other(format!("{}", e))),
        }
    }
}

/// What squeezing n bits from the in-circuit sponge returns,
/// little-endian, as a function of the configuration, the in-circuit
/// history and n.
pub uninterp spec fn circuit_challenge_bits_of(cfg: nat, hist: Seq<int>, n: nat) -> Seq<bool>;

/// The values assigned to a vector of boolean variables.
pub open spec fn bvals(s: Seq<BoolVar>) -> Seq<bool> {
    s.map_values(|v: BoolVar| bv(v))
}

/// Relies on the arkworks in-circuit recomposition of little-endian bits
/// into a field element: for fewer than 251 bits the value is the number
/// the bits denote.
#[verifier::external_body]
pub fn fvar_from_le_bits(bits: &Vec<BoolVar>) -> (r: Result<FVar, Error>)
    requires
        bits@.len() <= 250,
    ensures
        r matches Ok(v) ==> fv(v) == crate::field::bools_val(bvals(bits@)),
        r matches Err(e) ==> e is Other,
{
    let bs: Vec<ark_r1cs_std::boolean::Boolean<ark_bn254::Fr>> =
        bits.iter().map(|b| b.inner.clone()).collect();
    match ark_r1cs_std::boolean::Boolean::le_bits_to_fp_var(&bs) {
        Ok(v) => Ok(FVar { inner: v }),
        Err(e) => Err(Error::Other(format!("{}", e))),
    }
}

/// Relies on the arkworks in-circuit Poseidon CRH, whose evaluation
/// absorbs the input into a fresh in-circuit sponge of the given
/// configuration and squeezes one element.
#[verifier::external_body]
pub fn poseidon_hash_var(cs: &CsRef, cfg: &PoseidonConfig, input: &Vec<FVar>) -> (r: Result<
    FVar,
    Error,
>)
    ensures
        r matches Ok(v) ==> fv(v) == circuit_poseidon_of(cfg_id(*cfg), fvals(input@)),
        r matches Err(e) ==> e is Other,
{
    let params = ark_crypto_primitives::crh::poseidon::constraints::CRHParametersVar {
        parameters: cfg.inner.clone(),
    };
    let elems: Vec<ark_r1cs_std::fields::fp::FpVar<ark_bn254::Fr>> =
        input.iter().map(|v| v.inner.clone()).collect();
    match <ark_crypto_primitives::crh::poseidon::constraints::CRHGadget<
        ark_bn254::Fr,
    > as ark_crypto_primitives::crh::CRHSchemeGadget<
        ark_crypto_primitives::crh::poseidon::CRH<ark_bn254::Fr>,
        ark_bn254::Fr,
    >>::evaluate(&params, &elems) {
        Ok(v) => Ok(FVar { inner: v }),
        Err(e) => Err(Error::Other(format!("{}", e))),
    }
}

} // verus!
