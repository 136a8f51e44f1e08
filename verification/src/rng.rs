//! Random draws, through the `rand` crate.
//!
//! A random result depends on more than the arguments, so the contracts
//! state only what holds of every outcome (the range); the logic that
//! consumes a draw is verified for every value the contract allows.

use vstd::prelude::*;

verus! {

/// Relies on rand::Rng::gen_range over rand::rngs::ThreadRng: returns a
/// uniformly drawn value of the half-open range, and panics only on an
/// empty range, which the precondition rules out.
#[verifier::external_body]
pub(crate) fn rand_below(n: usize) -> (r: usize)
    requires
        n >= 1,
    ensures
        r < n,
{
    rand::Rng::gen_range(&mut rand::thread_rng(), 0..n)
}

/// Relies on rand::Rng::gen_range over rand::rngs::ThreadRng: returns a
/// uniformly drawn value of the half-open range, and panics only on an
/// empty range, which the precondition rules out.
#[verifier::external_body]
pub(crate) fn rand_range_u32(lo: u32, hi: u32) -> (r: u32)
    requires
        lo < hi,
    ensures
        lo <= r < hi,
{
    rand::Rng::gen_range(&mut rand::thread_rng(), lo..hi)
}

/// Relies on rand::Rng::gen_ratio over rand::rngs::ThreadRng: returns true
/// with probability `num / den`; panics when `den` is zero or `num > den`,
/// which the precondition rules out.  Nothing is promised of the outcome.
#[verifier::external_body]
pub(crate) fn rand_ratio(num: u32, den: u32) -> bool
    requires
        1 <= den,
        num <= den,
{
    rand::Rng::gen_ratio(&mut rand::thread_rng(), num, den)
}

} // verus!
