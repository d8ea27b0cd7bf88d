//! Uniform random draws, taken from the `rand` crate behind trusted
//! wrappers. Everything that consumes a draw is verified for every value
//! the wrapper may hand back.

use vstd::prelude::*;

verus! {

/// The thread-local generator of the `rand` crate, opaque to the verifier.
#[verifier::external_type_specification]
#[verifier::external_body]
pub struct ExThreadRng(rand::rngs::ThreadRng);

/// Relies on rand::thread_rng: a handle to the lazily-initialized
/// thread-local generator. Nothing is assumed of its state.
#[verifier::external_body]
pub fn new_thread_rng() -> rand::rngs::ThreadRng {
    rand::thread_rng()
}

/// Relies on rand::Rng::gen_range over `low..high`: a uniform draw within
/// the half-open range, which panics only on an empty range.
#[verifier::external_body]
pub fn gen_range_i64(rng: &mut rand::rngs::ThreadRng, low: i64, high: i64) -> (r: i64)
    requires
        low < high,
    ensures
        low <= r < high,
{
    rand::Rng::gen_range(rng, low..high)
}

} // verus!
