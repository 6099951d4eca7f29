//! The random number generator that the library draws on.

use rand::RngCore;
use vstd::prelude::*;

verus! {

/// The thread-local generator of `rand`; nothing is known of its state.
#[verifier::external_type_specification]
#[verifier::external_body]
pub struct ExThreadRng(rand::rngs::ThreadRng);

/// `rand::thread_rng` hands out the generator of the current thread. Nothing
/// is claimed of it.
pub assume_specification[ rand::thread_rng ]() -> (rng: rand::rngs::ThreadRng);

/// Calls `RngCore::next_u64` of `rand` on the generator. Nothing is claimed
/// of the number that comes back.
#[verifier::external_body]
pub(crate) fn random_token(rng: &mut rand::rngs::ThreadRng) -> (token: u64) {
    rng.next_u64()
}

} // verus!
