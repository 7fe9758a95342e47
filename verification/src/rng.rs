//! The randomness primitive: the process-wide generator and the three
//! sampling operations the motion generator draws from it.
//!
//! Nothing here is proved; each wrapper states only what the rand crate
//! documents of every outcome (a sampled integer lies in the requested
//! inclusive range; nothing is promised of a coin flip).

use rand::Rng;
use vstd::prelude::*;

verus! {

#[verifier::external_type_specification]
#[verifier::external_body]
pub struct ExThreadRng(rand::rngs::ThreadRng);

/// Relies on rand's `Rng::gen_range` over `lo..=hi`: the sample lies in the
/// inclusive range; the call panics only on an empty range, which the
/// precondition rules out.
#[verifier::external_body]
pub(crate) fn sample_i32(rng: &mut rand::rngs::ThreadRng, lo: i32, hi: i32) -> (r: i32)
    requires
        lo <= hi,
    ensures
        lo <= r <= hi,
{
    rng.gen_range(lo..=hi)
}

/// Relies on rand's `Rng::gen_range` over `lo..=hi`: the sample lies in the
/// inclusive range; the call panics only on an empty range, which the
/// precondition rules out.
#[verifier::external_body]
pub(crate) fn sample_u64(rng: &mut rand::rngs::ThreadRng, lo: u64, hi: u64) -> (r: u64)
    requires
        lo <= hi,
    ensures
        lo <= r <= hi,
{
    rng.gen_range(lo..=hi)
}

/// Relies on rand's `Rng::gen::<bool>` (the `Standard` distribution): a fair
/// coin flip. Nothing can be promised of a random boolean.
#[verifier::external_body]
pub(crate) fn sample_bool(rng: &mut rand::rngs::ThreadRng) -> bool {
    rng.gen()
}

} // verus!
