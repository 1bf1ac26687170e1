//! A folding-scheme library for incremental verifiable computation (IVC) in
//! the Nova family, instantiated over the BN254 curve: sparse linear algebra
//! over the scalar field, R1CS / CCS relation objects, Pedersen and KZG
//! commitments, a duplex-sponge transcript, the Nova folding driver with its
//! augmented step circuit, and an EVM-targeted onchain decider.
#![allow(non_snake_case)]

use vstd::prelude::*;

pub mod field;
pub mod linalg;
pub mod rng;
pub mod curve;
pub mod nonnative;
pub mod transcript;
pub mod pedersen;
pub mod kzg;
pub mod nova;
pub mod r1cs_var;
pub mod gadgets;
pub mod frontend;
pub mod augmented;
pub mod ivc;
pub mod sum_check;
pub mod hypernova;
pub mod decider;
pub mod codec;
pub mod arith;

verus! {

/// The number of bits of a squeezed folding challenge; the challenge set
/// has size 2^128, so the soundness error of a fold stays below 2^-127.
pub const N_BITS_RO: usize = 128;

/// Error taxonomy shared by all components.  Module-specific detail is
/// carried as a payload where needed.
#[derive(Debug, Clone, PartialEq, Eq)]
pub enum Error {
    /// A vector or matrix dimension does not match its peer.
    ShapeMismatch(String),
    /// A relation evaluated to a non-zero vector.
    NotSatisfied,
    /// A commitment opening failed to verify.
    CommitmentVerificationFail,
    /// The SNARK backend failed during setup.
    SNARKSetupFail(String),
    /// The SNARK backend rejected the proof.
    SNARKVerificationFail,
    /// The IVC proof failed to verify.
    IVCVerificationFail,
    /// Too few folded steps for this verifier.
    NotEnoughSteps,
    /// The step counter cannot be advanced further.
    MaxStep,
    /// A non-zero blinding factor was supplied to a non-hiding commitment.
    BlindingNotZero,
    /// Hiding commitments are not supported.
    HidingNotSupported,
    /// A polynomial is too large for the commitment key.
    PolynomialTooLarge(usize, usize),
    /// The sum-check prover failed.
    SumCheckProveFail(String),
    /// The sum-check verifier rejected the proof.
    SumCheckVerifyFail(String),
    /// A conversion between representations failed.
    ConversionError(String),
    /// Serialized data could not be read back.
    SerializationError,
    /// A required value was not present.
    MissingValue(String),
    /// A length that must be a power of two is not.
    NotPowerOfTwo(usize),
    /// An index or value is out of bounds.
    OutOfBounds,
    /// Any other failure.
    Other(String),
}

impl Error {
    /// A short description of the error kind, for display by callers.
    pub fn describe(&self) -> String {
        match self {
            Error::ShapeMismatch(_) => "dimensions do not match".to_string(),
            Error::NotSatisfied => "relation not satisfied".to_string(),
            Error::CommitmentVerificationFail => "commitment verification failed".to_string(),
            Error::SNARKSetupFail(_) => "SNARK setup failed".to_string(),
            Error::SNARKVerificationFail => "SNARK verification failed".to_string(),
            Error::IVCVerificationFail => "IVC verification failed".to_string(),
            Error::NotEnoughSteps => "the number of folded steps is too small".to_string(),
            Error::MaxStep => "max step count reached".to_string(),
            Error::BlindingNotZero => "blinding factor not 0 for commitment without hiding".to_string(),
            Error::HidingNotSupported => "hiding commitments are not supported".to_string(),
            Error::PolynomialTooLarge(_, _) => "polynomial too large for the commitment key".to_string(),
            Error::SumCheckProveFail(_) => "sum-check prove failed".to_string(),
            Error::SumCheckVerifyFail(_) => "sum-check verify failed".to_string(),
            Error::ConversionError(_) => "conversion failed".to_string(),
            Error::SerializationError => "serialization failed".to_string(),
            Error::MissingValue(_) => "missing value".to_string(),
            Error::NotPowerOfTwo(_) => "length is not a power of two".to_string(),
            Error::OutOfBounds => "value out of bounds".to_string(),
            Error::Other(_) => "error".to_string(),
        }
    }
}

} // verus!
