//! Limb decompositions of base-field values over the scalar field.  A
//! point of C1 has coordinates in FQ, which the transcript and the hash
//! absorb as a fixed number of scalar-field limbs; the decomposition used
//! here is the one the in-circuit non-native representation uses, so the
//! native and in-circuit absorptions see the same limbs.

use vstd::prelude::*;

use crate::curve::{g1_val, xcoord_of, ycoord_of, G1};
use crate::field::{Fq, Fr};
use crate::linalg::vals;
use crate::r1cs_var::{fv, fvals, CsRef, FVar};
use crate::Error;

verus! {

/// What the non-native limb decomposition returns for a base-field value:
/// a fixed-length vector of scalar-field limbs, a function of the value
/// alone.
pub uninterp spec fn limbs_of(x: nat) -> Seq<nat>;

/// Relies on the non-native field representation of ark_r1cs_std
/// (`get_limbs_representations`, weight-optimized): the limbs are a
/// function of the value alone, and it never fails.
#[verifier::external_body]
pub fn fq_to_limbs(x: &Fq) -> (r: Vec<Fr>)
    ensures
        vals(r@) == limbs_of(crate::field::fq_nat(*x)),
{
    let limbs =
        ark_r1cs_std::fields::nonnative::AllocatedNonNativeFieldVar::<
            ark_bn254::Fq,
            ark_bn254::Fr,
        >::get_limbs_representations(
            &x.inner,
            ark_r1cs_std::fields::nonnative::params::OptimizationType::Weight,
        ).unwrap();
    limbs.into_iter().map(|l| Fr { inner: l }).collect()
}

/// The limbs the x coordinate of a point contributes to a hash: the
/// affine identity is read as (0, 1).
pub open spec fn point_x_limbs(p: nat) -> Seq<nat> {
    if p == 0 {
        limbs_of(0)
    } else {
        limbs_of(xcoord_of(p))
    }
}

/// The limbs the y coordinate of a point contributes to a hash; the
/// affine identity is read as (0, 1).
pub open spec fn point_y_limbs(p: nat) -> Seq<nat> {
    if p == 0 {
        limbs_of(1)
    } else {
        limbs_of(ycoord_of(p))
    }
}

/// The limb representation of a point of C1, matching the in-circuit
/// non-native affine representation: the x limbs, then the y limbs, with
/// the affine identity read as (0, 1).
pub fn point_to_nonnative_limbs(p: &G1) -> (r: (Vec<Fr>, Vec<Fr>))
    ensures
        vals(r.0@) == point_x_limbs(g1_val(*p)),
        vals(r.1@) == point_y_limbs(g1_val(*p)),
{
    let affine = p.into_affine();
    match affine.xy() {
        None => {
            let x = fq_to_limbs(&Fq::zero());
            let y = fq_to_limbs(&Fq::one());
            (x, y)
        },
        Some((xc, yc)) => {
            let x = fq_to_limbs(&xc);
            let y = fq_to_limbs(&yc);
            (x, y)
        },
    }
}

/// What the in-circuit non-native limb decomposition produces for a
/// base-field value: the limb values, a function of the value alone.
pub uninterp spec fn circuit_limbs_of(x: nat) -> Seq<nat>;

/// An in-circuit non-native base-field element.
#[verifier::external_body]
pub struct NonNativeVar {
    pub(crate) inner: ark_r1cs_std::fields::nonnative::NonNativeFieldVar<
        ark_bn254::Fq,
        ark_bn254::Fr,
    >,
}

/// The base-field value an in-circuit non-native element carries.
pub uninterp spec fn nn_val(v: NonNativeVar) -> nat;

impl NonNativeVar {
    /// Relies on arkworks' non-native witness allocation: the variable
    /// carries the given base-field value.
    #[verifier::external_body]
    pub fn witness(cs: &CsRef, x: &Fq) -> (r: Result<NonNativeVar, Error>)
        ensures
            r matches Ok(v) ==> nn_val(v) == crate::field::fq_nat(*x),
            r matches Err(e) ==> e is Other,
    {
        match ark_r1cs_std::alloc::AllocVar::new_witness(cs.inner.clone(), || Ok(x.inner)) {
            Ok(v) => Ok(NonNativeVar { inner: v }),
            Err(e) => Err(Error::Other(format!("{}", e))),
        }
    }

    /// Relies on arkworks' `to_constraint_field` for non-native elements:
    /// the limb variables carry the limb decomposition of the value, a
    /// function of the value alone.
    #[verifier::external_body]
    pub fn to_constraint_field(&self) -> (r: Result<Vec<FVar>, Error>)
        ensures
            r matches Ok(v) ==> fvals(v@) == circuit_limbs_of(nn_val(*self)),
            r matches Err(e) ==> e is Other,
    {
        match ark_r1cs_std::ToConstraintFieldGadget::to_constraint_field(&self.inner) {
            Ok(v) => Ok(v.into_iter().map(|l| FVar { inner: l }).collect()),
            Err(e) => Err(Error::Other(format!("{}", e))),
        }
    }
}

/// The limbs the x coordinate of a point contributes in-circuit; the
/// affine identity is read as (0, 1), as in the native decomposition.
pub open spec fn circuit_point_x_limbs(p: nat) -> Seq<nat> {
    if p == 0 {
        circuit_limbs_of(0)
    } else {
        circuit_limbs_of(xcoord_of(p))
    }
}

/// The limbs the y coordinate of a point contributes in-circuit.
pub open spec fn circuit_point_y_limbs(p: nat) -> Seq<nat> {
    if p == 0 {
        circuit_limbs_of(1)
    } else {
        circuit_limbs_of(ycoord_of(p))
    }
}

/// An elliptic-curve point in affine representation over the non-native
/// field, held as limb variables over the constraint field; it is not
/// meant for arithmetic, only to carry the coordinates into hashes.
pub struct NonNativeAffineVar {
    /// The limbs of the x coordinate.
    pub x: Vec<FVar>,
    /// The limbs of the y coordinate.
    pub y: Vec<FVar>,
}

impl NonNativeAffineVar {
    /// Allocates the affine coordinates of a point as in-circuit
    /// non-native limbs; the identity is read as (0, 1).  Whether the
    /// allocation succeeds is decided by the opaque constraint-system
    /// backend, so success is not promised here; the run-time tests
    /// exercise it, including on the identity point.
    pub fn new_witness(cs: &CsRef, p: &G1) -> (r: Result<NonNativeAffineVar, Error>)
        ensures
            r matches Err(e) ==> e is Other,
            r matches Ok(v) ==> {
                &&& fvals(v.x@) == circuit_point_x_limbs(g1_val(*p))
                &&& fvals(v.y@) == circuit_point_y_limbs(g1_val(*p))
            },
    {
        let affine = p.into_affine();
        let (xc, yc) = match affine.xy() {
            None => (Fq::zero(), Fq::one()),
            Some((xc, yc)) => (xc, yc),
        };
        let xv = match NonNativeVar::witness(cs, &xc) {
            Ok(v) => v,
            Err(e) => {
                return Err(e);
            },
        };
        let yv = match NonNativeVar::witness(cs, &yc) {
            Ok(v) => v,
            Err(e) => {
                return Err(e);
            },
        };
        let x = match xv.to_constraint_field() {
            Ok(v) => v,
            Err(e) => {
                return Err(e);
            },
        };
        let y = match yv.to_constraint_field() {
            Ok(v) => v,
            Err(e) => {
                return Err(e);
            },
        };
        Ok(NonNativeAffineVar { x, y })
    }
}

} // verus!
