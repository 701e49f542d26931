//! The injectable random source for the decorative per-instance wobble:
//! an explicitly seeded generator, so rendering output is reproducible.

use vstd::prelude::*;

verus! {

use rand::Rng;

/// The seedable generator type of the `rand` crate, opaque to the library.
#[verifier::external_type_specification]
#[verifier::external_body]
pub struct ExStdRng(rand::rngs::StdRng);

/// Relies on rand's `Rng::gen` for a single-precision value in `[0, 1)`;
/// the draw is random, so nothing is claimed of the returned bits.
#[verifier::external_body]
pub(crate) fn gen_unit_bits(rng: &mut rand::rngs::StdRng) -> (r: u32) {
    rng.gen::<gl::types::GLfloat>().to_bits()
}

} // verus!
