//! The library's only randomness source: a handle to rand's thread-local
//! generator, passed explicitly into grid randomization and rule synthesis.

use vstd::prelude::*;
use rand::Rng;

verus! {

#[verifier::external_type_specification]
#[verifier::external_body]
pub struct ExThreadRng(rand::rngs::ThreadRng);

/// Relies on rand's Rng::gen_range over an inclusive range, which panics only
/// when the range is empty and otherwise returns a value inside it.
#[verifier::external_body]
pub(crate) fn rng_range_u8(rng: &mut rand::rngs::ThreadRng, lo: u8, hi: u8) -> (r: u8)
    requires
        lo <= hi,
    ensures
        lo <= r <= hi,
{
    rng.gen_range(lo..=hi)
}

/// Relies on rand's Rng::gen with the Standard distribution on bool: a fair
/// coin flip; nothing is promised of the outcome.
#[verifier::external_body]
pub(crate) fn rng_bool(rng: &mut rand::rngs::ThreadRng) -> (r: bool) {
    rng.gen()
}

/// Relies on rand's Rng::gen with the Standard distribution on u8: a uniform
/// byte; nothing is promised of the outcome.
#[verifier::external_body]
pub(crate) fn rng_byte(rng: &mut rand::rngs::ThreadRng) -> (r: u8) {
    rng.gen()
}

/// Relies on rand's Rng::gen_ratio: true with probability
/// numerator/denominator. It panics when the denominator is zero or the
/// numerator exceeds it; a zero numerator always gives false and a numerator
/// equal to the denominator always gives true.
#[verifier::external_body]
pub(crate) fn rng_ratio(rng: &mut rand::rngs::ThreadRng, numerator: u32, denominator: u32) -> (r:
    bool)
    requires
        1 <= denominator,
        numerator <= denominator,
    ensures
        numerator == 0 ==> !r,
        numerator == denominator ==> r,
{
    rng.gen_ratio(numerator, denominator)
}

} // verus!
