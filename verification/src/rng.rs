use rand::rngs::ThreadRng;
use rand::Rng;
use vstd::prelude::*;

verus! {

/// `rand::rngs::ThreadRng`, the handle to the thread-local generator. Nothing
/// is known of what it holds.
#[verifier::external_type_specification]
#[verifier::external_body]
pub struct ExThreadRng(ThreadRng);

/// Calls `rand::thread_rng`, which hands out the handle to the lazily seeded
/// generator of the current thread. Nothing is claimed of the handle.
#[verifier::external_body]
pub(crate) fn thread_rng() -> (rng: ThreadRng) {
    rand::thread_rng()
}

/// Calls `Rng::gen_range` on the inclusive range from 0 to 255, as a
/// sixteen-bit value. The claim is only that the value lies in that range;
/// which value comes out is left open, and two calls may differ.
#[verifier::external_body]
pub(crate) fn random_word(rng: &mut ThreadRng) -> (word: u16)
    ensures
        word <= 255,
{
    rng.gen_range(0..=255)
}

} // verus!
