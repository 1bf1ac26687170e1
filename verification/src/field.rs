//! The scalar field F and base field FQ of the BN254 curve, backed by the
//! arkworks field arithmetic.
//!
//! Verus refuses a declaration of the arkworks field type itself (its
//! generics carry outside trait bounds), so each field element is held in a
//! private field of an opaque struct of this crate.  Every contract speaks
//! of elements through the abstraction functions `fr_nat` and `fq_nat`,
//! which read an element as its canonical integer representative below the
//! field order, and through the modular spec operations on representatives.

use vstd::prelude::*;

verus! {

/// An element of the BN254 scalar field F.
#[verifier::external_body]
pub struct Fr {
    pub(crate) inner: ark_bn254::Fr,
}

/// An element of the BN254 base field FQ.
#[verifier::external_body]
pub struct Fq {
    pub(crate) inner: ark_bn254::Fq,
}

impl Clone for Fr {
    /// Relies on the arkworks element being a plain value: the clone is the
    /// same element.
    #[verifier::external_body]
    fn clone(&self) -> (r: Self)
        ensures
            r == *self,
    {
        Fr { inner: self.inner }
    }
}

impl Copy for Fr {}

impl Clone for Fq {
    /// Relies on the arkworks element being a plain value: the clone is the
    /// same element.
    #[verifier::external_body]
    fn clone(&self) -> (r: Self)
        ensures
            r == *self,
    {
        Fq { inner: self.inner }
    }
}

impl Copy for Fq {}

/// The canonical integer representative of a scalar-field element, below
/// `fr_order()`.  Equal representatives mean equal elements.
pub uninterp spec fn fr_nat(x: Fr) -> nat;

/// The canonical integer representative of a base-field element, below
/// `fq_order()`.
pub uninterp spec fn fq_nat(x: Fq) -> nat;

/// The order r of the BN254 scalar field.
pub open spec fn fr_order() -> nat {
    21888242871839275222246405745257275088548364400416034343698204186575808495617nat
}

/// The order q of the BN254 base field.
pub open spec fn fq_order() -> nat {
    21888242871839275222246405745257275088696311157297823662689037894645226208583nat
}

/// Addition in the scalar field, on representatives.
pub open spec fn p_add(a: nat, b: nat) -> nat {
    (((a + b) as int) % (fr_order() as int)) as nat
}

/// Multiplication in the scalar field, on representatives.
pub open spec fn p_mul(a: nat, b: nat) -> nat {
    (((a * b) as int) % (fr_order() as int)) as nat
}

/// Subtraction in the scalar field, on representatives reduced below r.
pub open spec fn p_sub(a: nat, b: nat) -> nat {
    (((a + fr_order() - b) as int) % (fr_order() as int)) as nat
}

/// Reduction of an arbitrary representative below r.
pub open spec fn p_reduce(a: nat) -> nat {
    ((a as int) % (fr_order() as int)) as nat
}

/// Negation in the scalar field, on representatives reduced below r.
pub open spec fn p_neg(a: nat) -> nat {
    (((fr_order() - p_reduce(a)) as int) % (fr_order() as int)) as nat
}

impl Fr {
    /// Relies on ark_ff's field addition: addition modulo the field order,
    /// on canonical representatives.
    #[verifier::external_body]
    pub fn add(&self, other: &Fr) -> (r: Fr)
        ensures
            fr_nat(r) == p_add(fr_nat(*self), fr_nat(*other)),
    {
        Fr { inner: self.inner + other.inner }
    }

    /// Relies on ark_ff's field subtraction: subtraction modulo the field
    /// order.
    #[verifier::external_body]
    pub fn sub(&self, other: &Fr) -> (r: Fr)
        ensures
            fr_nat(r) == p_sub(fr_nat(*self), fr_nat(*other)),
    {
        Fr { inner: self.inner - other.inner }
    }

    /// Relies on ark_ff's field multiplication: multiplication modulo the
    /// field order.
    #[verifier::external_body]
    pub fn mul(&self, other: &Fr) -> (r: Fr)
        ensures
            fr_nat(r) == p_mul(fr_nat(*self), fr_nat(*other)),
    {
        Fr { inner: self.inner * other.inner }
    }

    /// Relies on ark_ff's field negation.
    #[verifier::external_body]
    pub fn neg(&self) -> (r: Fr)
        ensures
            fr_nat(r) == p_neg(fr_nat(*self)),
    {
        Fr { inner: -self.inner }
    }

    /// Relies on ark_ff's additive identity: its representative is 0.
    #[verifier::external_body]
    pub fn zero() -> (r: Fr)
        ensures
            fr_nat(r) == 0,
    {
        Fr { inner: <ark_bn254::Fr as ark_std::Zero>::zero() }
    }

    /// Relies on ark_ff's multiplicative identity: its representative is 1.
    #[verifier::external_body]
    pub fn one() -> (r: Fr)
        ensures
            fr_nat(r) == 1,
    {
        Fr { inner: <ark_bn254::Fr as ark_std::One>::one() }
    }

    /// Relies on ark_ff's conversion from u64, which reduces modulo r;
    /// every u64 value is already below r.
    #[verifier::external_body]
    pub fn from_u64(n: u64) -> (r: Fr)
        ensures
            fr_nat(r) == n as nat,
    {
        Fr { inner: ark_bn254::Fr::from(n) }
    }

    /// Relies on ark_ff's equality test, which compares canonical
    /// representations, so it agrees with equality of representatives.
    #[verifier::external_body]
    pub fn equals(&self, other: &Fr) -> (r: bool)
        ensures
            r <==> fr_nat(*self) == fr_nat(*other),
    {
        self.inner == other.inner
    }

    /// Relies on ark_ff's zero test, which agrees with the representative
    /// being 0.
    #[verifier::external_body]
    pub fn is_zero(&self) -> (r: bool)
        ensures
            r <==> fr_nat(*self) == 0,
    {
        <ark_bn254::Fr as ark_std::Zero>::is_zero(&self.inner)
    }
}

/// The number a little-endian bit sequence denotes.
pub open spec fn bools_val(s: Seq<bool>) -> nat
    decreases s.len(),
{
    if s.len() == 0 {
        0
    } else {
        (if s[0] {
            1nat
        } else {
            0nat
        }) + 2 * bools_val(s.drop_first())
    }
}

/// Relies on ark_ff's big-integer and field conversions: a little-endian
/// bit string of fewer than 251 bits denotes a number below the field
/// order, and the element built from it has that representative.
#[verifier::external_body]
pub fn fr_from_le_bits(bits: &Vec<bool>) -> (r: Fr)
    requires
        bits@.len() <= 250,
    ensures
        fr_nat(r) == bools_val(bits@),
{
    let big = <ark_ff::BigInt<4> as ark_ff::BigInteger>::from_bits_le(bits);
    Fr { inner: <ark_bn254::Fr as ark_ff::PrimeField>::from_bigint(big).unwrap() }
}

impl Fq {
    /// Relies on ark_ff's additive identity of the base field.
    #[verifier::external_body]
    pub fn zero() -> (r: Fq)
        ensures
            fq_nat(r) == 0,
    {
        Fq { inner: <ark_bn254::Fq as ark_std::Zero>::zero() }
    }

    /// Relies on ark_ff's multiplicative identity of the base field.
    #[verifier::external_body]
    pub fn one() -> (r: Fq)
        ensures
            fq_nat(r) == 1,
    {
        Fq { inner: <ark_bn254::Fq as ark_std::One>::one() }
    }
}


/// Byte i of the canonical little-endian encoding of the scalar-field
/// element with the given representative.
pub uninterp spec fn fr_byte(n: nat, i: int) -> u8;

/// The canonical little-endian 32-byte encoding of a scalar-field
/// element, as a function of its representative.
pub open spec fn fr_block(n: nat) -> Seq<u8> {
    Seq::new(32, |i: int| fr_byte(n, i))
}

/// Relies on ark_serialize's canonical compressed encoding of a field
/// element: 32 little-endian bytes, a function of the representative.
#[verifier::external_body]
pub fn fr_to_le_bytes(x: &Fr) -> (r: Vec<u8>)
    ensures
        r@ == fr_block(fr_nat(*x)),
        forall|i: int| 0 <= i < 32 ==> r@[i] == fr_byte(fr_nat(*x), i),
{
    let mut out = Vec::new();
    ark_serialize::CanonicalSerialize::serialize_compressed(&x.inner, &mut out).unwrap();
    out
}

/// Relies on ark_serialize's canonical decoding with validation: on a
/// 32-byte input it accepts exactly the canonical encodings (the decoder
/// reads the full 32 bytes and rejects a representative at or above the
/// order), and answers the element the input encodes.
#[verifier::external_body]
pub fn fr_from_le_bytes(b: &Vec<u8>) -> (r: Result<Fr, crate::Error>)
    requires
        b@.len() == 32,
    ensures
        r matches Ok(x) ==> b@ == fr_block(fr_nat(x)),
        r is Err ==> (forall|y: Fr| b@ != #[trigger] fr_block(fr_nat(y))),
{
    match ark_serialize::CanonicalDeserialize::deserialize_compressed(b.as_slice()) {
        Ok(x) => Ok(Fr { inner: x }),
        Err(_) => Err(crate::Error::SerializationError),
    }
}

/// What the canonical big-endian byte encoding of a scalar-field/// What the canonical big-endian byte encoding of a scalar-field element
/// is, as a function of its representative.
pub uninterp spec fn fr_be_bytes(n: nat) -> Seq<u8>;

/// What the canonical big-endian byte encoding of a base-field element
/// is, as a function of its representative.
pub uninterp spec fn fq_be_bytes(n: nat) -> Seq<u8>;

/// Relies on ark_ff's big-integer conversion: 32 big-endian bytes of the
/// canonical representative.
#[verifier::external_body]
pub fn fr_to_be_bytes(x: &Fr) -> (r: Vec<u8>)
    ensures
        r@ == fr_be_bytes(fr_nat(*x)),
        r@.len() == 32,
{
    ark_ff::BigInteger::to_bytes_be(&<ark_bn254::Fr as ark_ff::PrimeField>::into_bigint(x.inner))
}

/// Relies on ark_ff's big-integer conversion: 32 big-endian bytes of the
/// canonical representative.
#[verifier::external_body]
pub fn fq_to_be_bytes(x: &Fq) -> (r: Vec<u8>)
    ensures
        r@ == fq_be_bytes(fq_nat(*x)),
        r@.len() == 32,
{
    ark_ff::BigInteger::to_bytes_be(&<ark_bn254::Fq as ark_ff::PrimeField>::into_bigint(x.inner))
}

} // verus!
