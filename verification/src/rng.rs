//! The random draws of the game, taken from `rand`'s thread-local generator.
//!
//! Nothing in this file is proved: the two functions hand a call on to `rand`,
//! and their contracts state what `rand` documents of the result.

use rand::rngs::ThreadRng;
use rand::Rng;
use vstd::prelude::*;

verus! {

/// `rand::rngs::ThreadRng`, the handle to the generator of the current
/// thread. Its state is not modelled.
#[verifier::external_type_specification]
#[verifier::external_body]
pub struct ExThreadRng(rand::rngs::ThreadRng);

/// Draws one byte with `Rng::gen::<u8>`. Any of the 256 values may come back,
/// so the contract promises nothing of it.
#[verifier::external_body]
pub(crate) fn draw_byte(rng: &mut ThreadRng) -> (byte: u8) {
    rng.gen::<u8>()
}

/// Draws one number with `Rng::gen_range(low..high)`. `rand` panics on an
/// empty range, which `requires` leaves out, and otherwise returns a value of
/// the half-open range.
#[verifier::external_body]
pub(crate) fn draw_in_range(rng: &mut ThreadRng, low: u16, high: u16) -> (value: u16)
    requires
        low < high,
    ensures
        low <= value < high,
{
    rng.gen_range(low..high)
}

} // verus!
