//! The random source. Everything random in this crate is drawn from a
//! generator that the caller seeds and hands in, never from ambient state.

use vstd::prelude::*;
use rand::rngs::StdRng;
use rand::Rng;
use rand::SeedableRng;

verus! {

/// `rand::rngs::StdRng`, carried through as an opaque value.
#[verifier::external_type_specification]
#[verifier::external_body]
pub struct ExStdRng(rand::rngs::StdRng);

/// `SeedableRng::seed_from_u64` on `StdRng`: a generator whose whole output
/// is fixed by `seed`. Nothing is claimed of the generator itself.
#[verifier::external_body]
pub(crate) fn seeded(seed: u64) -> (rng: StdRng) {
    StdRng::seed_from_u64(seed)
}

/// `Rng::gen_range` on the half-open range `low..high`. The call panics on an
/// empty range, which `requires` rules out; what it returns lies in the range,
/// and that is all that is claimed of it.
#[verifier::external_body]
pub(crate) fn draw(rng: &mut StdRng, low: usize, high: usize) -> (r: usize)
    requires
        low < high,
    ensures
        low <= r < high,
{
    rng.gen_range(low..high)
}

} // verus!
