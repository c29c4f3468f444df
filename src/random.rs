use rand::Rng;
use rand_pcg::Pcg32;
use vstd::prelude::*;

verus! {

/// The tank's pseudo-random generator, a PCG32 stream, opaque to proofs.
#[verifier::external_type_specification]
#[verifier::external_body]
pub struct ExPcg32(rand_pcg::Lcg64Xsh32);

/// Relies on rand_pcg's `Lcg64Xsh32::new`: a generator on the given PCG
/// state and stream. Its draws are not spoken of.
#[verifier::external_body]
pub(crate) fn new_rng(state: u64, stream: u64) -> (r: Pcg32) {
    Pcg32::new(state, stream)
}

/// Relies on rand's `Rng::gen_range` on `u8`: a value in `[low, high)`;
/// it panics when `low >= high`.
#[verifier::external_body]
pub(crate) fn gen_range_u8(rng: &mut Pcg32, low: u8, high: u8) -> (r: u8)
    requires
        low < high,
    ensures
        low <= r < high,
{
    rng.gen_range(low, high)
}

/// Relies on rand's `Rng::gen_range` on `u32`: a value in `[low, high)`;
/// it panics when `low >= high`.
#[verifier::external_body]
pub(crate) fn gen_range_u32(rng: &mut Pcg32, low: u32, high: u32) -> (r: u32)
    requires
        low < high,
    ensures
        low <= r < high,
{
    rng.gen_range(low, high)
}

/// Relies on rand's `Rng::gen_range` on `i32`: a value in `[low, high)`;
/// it panics when `low >= high`.
#[verifier::external_body]
pub(crate) fn gen_range_i32(rng: &mut Pcg32, low: i32, high: i32) -> (r: i32)
    requires
        low < high,
    ensures
        low <= r < high,
{
    rng.gen_range(low, high)
}

/// Relies on rand's `Rng::gen` on `bool`: a coin toss. Nothing is
/// promised of its outcome.
#[verifier::external_body]
pub(crate) fn gen_bool(rng: &mut Pcg32) -> (r: bool) {
    rng.gen::<bool>()
}

/// Relies on rand's `Rng::gen_ratio`: true with chance
/// `numerator / denominator`, surely true when the two are equal and surely
/// false when `numerator` is zero; it panics when `denominator` is zero or
/// below `numerator`.
#[verifier::external_body]
pub(crate) fn gen_ratio(rng: &mut Pcg32, numerator: u32, denominator: u32) -> (r: bool)
    requires
        0 < denominator,
        numerator <= denominator,
    ensures
        numerator == denominator ==> r,
        numerator == 0 ==> !r,
{
    rng.gen_ratio(numerator, denominator)
}

} // verus!
