//! A deterministic random-number source for parameter generation, backed by
//! arkworks' test RNG.  Randomness is consumed only at preprocessing; no
//! contract says anything about the drawn values.

use vstd::prelude::*;

use crate::field::Fr;

verus! {

/// A seeded random-number generator.
#[verifier::external_body]
pub struct Rng {
    pub(crate) inner: ark_std::rand::rngs::StdRng,
}

impl Rng {
    /// Relies on ark_std's test RNG constructor; the stream it yields is
    /// unspecified here.
    #[verifier::external_body]
    pub fn new_test() -> Rng {
        Rng {
            inner: <ark_std::rand::rngs::StdRng as ark_std::rand::SeedableRng>::seed_from_u64(0),
        }
    }

    /// Relies on ark_std's seedable RNG constructor; the stream it yields
    /// is unspecified here.
    #[verifier::external_body]
    pub fn from_seed(seed: u64) -> Rng {
        Rng {
            inner: <ark_std::rand::rngs::StdRng as ark_std::rand::SeedableRng>::seed_from_u64(seed),
        }
    }
}

/// Relies on ark_ff's uniform sampling of a field element; nothing is
/// promised of the value drawn.
#[verifier::external_body]
pub fn fr_rand(rng: &mut Rng) -> Fr {
    Fr { inner: <ark_bn254::Fr as ark_std::UniformRand>::rand(&mut rng.inner) }
}

} // verus!
