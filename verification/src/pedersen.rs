//! The Pedersen vector commitment over C1: a multi-scalar multiplication
//! of the committed vector against random generators.  The scheme runs in
//! non-hiding mode: a non-zero blinding factor is rejected.

use vstd::prelude::*;

use crate::curve::{g1_rand, g1_val, g1a_vals, msm, msm_val, G1, G1Affine};
use crate::field::{fr_nat, Fr};
use crate::linalg::vals;
use crate::rng::Rng;
use crate::Error;

verus! {

/// Pedersen parameters: one generator per committed entry, and one for
/// the blinding factor.
pub struct PedersenParams {
    /// The generators the vector entries are committed against.
    pub generators: Vec<G1Affine>,
    /// The generator of the blinding term.
    pub h: G1Affine,
}

/// What a non-hiding Pedersen commitment is: the multi-scalar
/// multiplication of the vector against the first |v| generators.
pub open spec fn pedersen_commit_val(generators: Seq<nat>, v: Seq<nat>) -> nat {
    msm_val(generators.take(v.len() as int), v)
}

/// Draws fresh random parameters with `max` generators.
pub fn pedersen_setup(rng: &mut Rng, max: usize) -> (r: PedersenParams)
    ensures
        r.generators@.len() == max,
{
    let mut generators: Vec<G1Affine> = Vec::new();
    for i in 0..max
        invariant
            generators@.len() == i,
    {
        generators.push(g1_rand(rng));
    }
    let h = g1_rand(rng);
    PedersenParams { generators, h }
}

/// Commits to a vector under the given parameters.  The scheme is
/// non-hiding: a non-zero blinding factor is rejected with
/// `BlindingNotZero`; a vector longer than the generator list is rejected
/// with `ShapeMismatch`.
pub fn pedersen_commit(params: &PedersenParams, v: &Vec<Fr>, blind: &Fr) -> (r: Result<G1, Error>)
    ensures
        r is Ok <==> (fr_nat(*blind) == 0 && v@.len() <= params.generators@.len()),
        r matches Ok(c) ==> g1_val(c) == pedersen_commit_val(
            g1a_vals(params.generators@),
            vals(v@),
        ),
        r matches Err(e) ==> {
            &&& e is BlindingNotZero <==> fr_nat(*blind) != 0
            &&& e is ShapeMismatch <==> (fr_nat(*blind) == 0 && v@.len()
                > params.generators@.len())
        },
{
    if !blind.is_zero() {
        return Err(Error::BlindingNotZero);
    }
    if v.len() > params.generators.len() {
        return Err(Error::ShapeMismatch("vector longer than the generator list".to_string()));
    }
    let mut gens: Vec<G1Affine> = Vec::new();
    for i in 0..v.len()
        invariant
            v@.len() <= params.generators@.len(),
            gens@.len() == i,
            gens@ =~= params.generators@.take(i as int),
    {
        gens.push(params.generators[i]);
    }
    let c = msm(&gens, v);
    proof {
        assert(g1a_vals(gens@) =~= g1a_vals(params.generators@).take(v@.len() as int));
    }
    Ok(c)
}

} // verus!
