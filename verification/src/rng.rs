//! The seedable random number generator used for tie-breaking.
//!
//! Randomness is injected as an explicit parameter so that resolution is
//! reproducible under test with a fixed seed.  Nothing is assumed about the
//! values drawn beyond their range.

use vstd::prelude::*;

use rand::Rng;

verus! {

/// The standard generator of the `rand` crate, declared so its values can be
/// carried through verified code; the engine never looks inside it.
#[verifier::external_type_specification]
#[verifier::external_body]
pub struct ExStdRng(rand::rngs::StdRng);

/// Relies on `rand::Rng::gen_range` over `0..len`: the sample lies in the
/// (non-empty) range.
#[verifier::external_body]
pub fn choose_index(rng: &mut rand::rngs::StdRng, len: usize) -> (result: usize)
    requires
        len >= 1,
    ensures
        result < len,
{
    rng.gen_range(0..len)
}

} // verus!
