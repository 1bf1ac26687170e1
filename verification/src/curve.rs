//! Points of the BN254 curve C1 in projective and affine form, backed by
//! the arkworks group arithmetic.  Points are opaque; contracts read them
//! through the abstraction `g1_val` (and `g1a_val` for affine points),
//! which maps a point to a number that identifies it uniquely, with the
//! identity at 0.  The group operations themselves are named functions on
//! those numbers: nothing short of the curve equations could pin them
//! down, and the library never needs more than that the same operands give
//! the same result.

use vstd::prelude::*;

use crate::field::{fr_nat, Fq, Fr};
use crate::rng::Rng;

verus! {

/// A point of C1 in projective coordinates.
#[verifier::external_body]
pub struct G1 {
    pub(crate) inner: ark_bn254::G1Projective,
}

/// A point of C1 in affine coordinates.
#[verifier::external_body]
pub struct G1Affine {
    pub(crate) inner: ark_bn254::G1Affine,
}

impl Clone for G1 {
    /// Relies on the arkworks point being a plain value: the clone is the
    /// same point.
    #[verifier::external_body]
    fn clone(&self) -> (r: Self)
        ensures
            r == *self,
    {
        G1 { inner: self.inner }
    }
}

impl Copy for G1 {}

impl Clone for G1Affine {
    /// Relies on the arkworks point being a plain value: the clone is the
    /// same point.
    #[verifier::external_body]
    fn clone(&self) -> (r: Self)
        ensures
            r == *self,
    {
        G1Affine { inner: self.inner }
    }
}

impl Copy for G1Affine {}

/// The abstract identifier of a projective point: the identity maps to 0;
/// distinct points map to distinct numbers.
pub uninterp spec fn g1_val(p: G1) -> nat;

/// The abstract identifier of an affine point, on the same scale as
/// `g1_val`.
pub uninterp spec fn g1a_val(p: G1Affine) -> nat;

/// What the group addition returns, on point identifiers.
pub uninterp spec fn gadd(a: nat, b: nat) -> nat;

/// What the scalar multiplication returns, on a scalar representative and
/// a point identifier.
pub uninterp spec fn gmul(k: nat, p: nat) -> nat;

/// What the multi-scalar multiplication ∑ sᵢ·Pᵢ returns, on point
/// identifiers and scalar representatives.
pub uninterp spec fn msm_val(points: Seq<nat>, scalars: Seq<nat>) -> nat;

/// The x coordinate of the affine point with the given identifier, as a
/// base-field representative.
pub uninterp spec fn xcoord_of(p: nat) -> nat;

/// The y coordinate of the affine point with the given identifier, as a
/// base-field representative.
pub uninterp spec fn ycoord_of(p: nat) -> nat;

/// The identifiers of a vector of affine points.
pub open spec fn g1a_vals(s: Seq<G1Affine>) -> Seq<nat> {
    s.map_values(|p: G1Affine| g1a_val(p))
}

impl G1 {
    /// Relies on the arkworks identity point; it is the point that
    /// `g1_val` maps to 0.
    #[verifier::external_body]
    pub fn zero() -> (r: G1)
        ensures
            g1_val(r) == 0,
    {
        G1 { inner: <ark_bn254::G1Projective as ark_std::Zero>::zero() }
    }

    /// Relies on the arkworks group addition: the same operands always
    /// give the same sum.
    #[verifier::external_body]
    pub fn add(&self, other: &G1) -> (r: G1)
        ensures
            g1_val(r) == gadd(g1_val(*self), g1_val(*other)),
    {
        G1 { inner: self.inner + other.inner }
    }

    /// Relies on the arkworks scalar multiplication: the same operands
    /// always give the same multiple.
    #[verifier::external_body]
    pub fn scalar_mul(&self, k: &Fr) -> (r: G1)
        ensures
            g1_val(r) == gmul(fr_nat(*k), g1_val(*self)),
    {
        G1 { inner: self.inner * k.inner }
    }

    /// Relies on the arkworks point equality, which agrees with equality
    /// of the points themselves, hence of their identifiers.
    #[verifier::external_body]
    pub fn equals(&self, other: &G1) -> (r: bool)
        ensures
            r <==> g1_val(*self) == g1_val(*other),
    {
        self.inner == other.inner
    }

    /// Relies on the arkworks conversion to affine form, which keeps the
    /// point.
    #[verifier::external_body]
    pub fn into_affine(&self) -> (r: G1Affine)
        ensures
            g1a_val(r) == g1_val(*self),
    {
        G1Affine { inner: ark_ec::CurveGroup::into_affine(self.inner) }
    }
}

impl G1Affine {
    /// Relies on the arkworks conversion to projective form, which keeps
    /// the point.
    #[verifier::external_body]
    pub fn into_group(&self) -> (r: G1)
        ensures
            g1_val(r) == g1a_val(*self),
    {
        G1 { inner: ark_ec::AffineRepr::into_group(self.inner) }
    }

    /// Relies on arkworks' affine coordinates: `xy` answers None exactly
    /// on the identity, and otherwise the unique (x, y) of the point.
    #[verifier::external_body]
    pub fn xy(&self) -> (r: Option<(Fq, Fq)>)
        ensures
            r is None <==> g1a_val(*self) == 0,
            r matches Some((x, y)) ==> crate::field::fq_nat(x) == xcoord_of(g1a_val(*self))
                && crate::field::fq_nat(y) == ycoord_of(g1a_val(*self)),
    {
        match ark_ec::AffineRepr::xy(&self.inner) {
            Some((x, y)) => Some((Fq { inner: *x }, Fq { inner: *y })),
            None => None,
        }
    }
}

/// Byte i of the canonical compressed encoding of the point with the
/// given identifier.
pub uninterp spec fn g1_byte(p: nat, i: int) -> u8;

/// The canonical compressed 32-byte encoding of a point of C1, as a
/// function of the point.
pub open spec fn g1_block(p: nat) -> Seq<u8> {
    Seq::new(32, |i: int| g1_byte(p, i))
}

/// The point the compressed decoder reads from a 32-byte string.
pub uninterp spec fn g1_of_block(b: Seq<u8>) -> nat;

impl G1 {
    /// Relies on ark_serialize's canonical compressed point encoding:
    /// 32 bytes, a function of the point.
    #[verifier::external_body]
    pub fn to_bytes(&self) -> (r: Vec<u8>)
        ensures
            r@ == g1_block(g1_val(*self)),
            forall|i: int| 0 <= i < 32 ==> r@[i] == g1_byte(g1_val(*self), i),
    {
        let mut out = Vec::new();
        ark_serialize::CanonicalSerialize::serialize_compressed(&self.inner, &mut out).unwrap();
        out
    }

    /// Relies on ark_serialize's compressed point decoding with
    /// validation, on a 32-byte input.  The decoder is deterministic; it
    /// accepts the canonical encoding of every point (so a rejected input
    /// encodes no point), and on the canonical encoding of a point it
    /// answers that point.  It also accepts some non-canonical strings
    /// (an infinity flag with arbitrary coordinate bytes), so acceptance
    /// alone does not make the input canonical: the caller compares the
    /// input against the re-serialized point where canonicality matters.
    #[verifier::external_body]
    pub fn from_bytes(b: &Vec<u8>) -> (r: Result<G1, crate::Error>)
        requires
            b@.len() == 32,
        ensures
            r matches Ok(p) ==> g1_of_block(b@) == g1_val(p),
            r matches Ok(p) ==> (forall|q: G1|
                b@ == #[trigger] g1_block(g1_val(q)) ==> g1_val(q) == g1_val(p)),
            r is Err ==> (forall|q: G1| b@ != #[trigger] g1_block(g1_val(q))),
    {
        match ark_serialize::CanonicalDeserialize::deserialize_compressed(b.as_slice()) {
            Ok(p) => Ok(G1 { inner: p }),
            Err(_) => Err(crate::Error::SerializationError),
        }
    }
}

/// Relies on arkworks' uniform sampling of a point/// Relies on arkworks' uniform sampling of a point; nothing is promised of
/// the point drawn.
#[verifier::external_body]
pub fn g1_rand(rng: &mut Rng) -> G1Affine {
    G1Affine {
        inner: ark_ec::CurveGroup::into_affine(
            <ark_bn254::G1Projective as ark_std::UniformRand>::rand(&mut rng.inner),
        ),
    }
}

/// Relies on arkworks' multi-scalar multiplication, which computes
/// ∑ sᵢ·Pᵢ; it only accepts slices of equal length.
#[verifier::external_body]
pub fn msm(points: &Vec<G1Affine>, scalars: &Vec<Fr>) -> (r: G1)
    requires
        points@.len() == scalars@.len(),
    ensures
        g1_val(r) == msm_val(g1a_vals(points@), vals_of(scalars@)),
{
    let bases: Vec<ark_bn254::G1Affine> = points.iter().map(|p| p.inner).collect();
    let ss: Vec<ark_bn254::Fr> = scalars.iter().map(|s| s.inner).collect();
    G1 {
        inner: <ark_bn254::G1Projective as ark_ec::VariableBaseMSM>::msm(&bases, &ss).unwrap(),
    }
}

/// The representatives of a vector of scalars; a shorthand shared with the
/// linear-algebra module.
pub open spec fn vals_of(s: Seq<Fr>) -> Seq<nat> {
    crate::linalg::vals(s)
}

} // verus!
