use vstd::prelude::*;

verus! {

/// The handle type of rand's thread-local generator, opaque to verification.
#[verifier::external_type_specification]
#[verifier::external_body]
pub struct ExThreadRng(rand::rngs::ThreadRng);

/// Relies on rand::thread_rng: hands out a handle to the thread-local,
/// freshly seeded pseudorandom generator. Nothing is assumed of the handle;
/// on a thread's first use it panics if seeding from OS entropy fails.
#[verifier::external_body]
pub(crate) fn fresh_rng() -> rand::rngs::ThreadRng {
    rand::thread_rng()
}

/// Relies on rand::Rng::gen_range over the half-open range 0..bound: it
/// returns a value of that range, so strictly below `bound`. It panics on an
/// empty range, which the precondition rules out, and otherwise only if the
/// generator's periodic reseed from OS entropy fails. Nothing is assumed of
/// the distribution: callers must hold for every value below `bound`.
#[verifier::external_body]
pub(crate) fn draw_below(rng: &mut rand::rngs::ThreadRng, bound: u64) -> (draw: u64)
    requires
        bound >= 1,
    ensures
        draw < bound,
{
    rand::Rng::gen_range(rng, 0..bound)
}

} // verus!
