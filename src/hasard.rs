//! The random source: rand's seedable standard generator.

use rand::rngs::StdRng;
use rand::Rng;
use vstd::prelude::*;

verus! {

#[verifier::external_type_specification]
#[verifier::external_body]
pub struct ExStdRng(StdRng);

/// Relies on rand's `Rng::gen_range` over the range `0..borne`: the value it
/// returns lies in that range; it panics only when the range is empty.
#[verifier::external_body]
pub(crate) fn tirer(rng: &mut StdRng, borne: u32) -> (r: u32)
    requires
        0 < borne,
    ensures
        r < borne,
{
    rng.gen_range(0..borne)
}

} // verus!
