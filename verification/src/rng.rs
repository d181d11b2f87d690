//! Random draws for the spawner, taken from the `rand` crate behind trusted
//! declarations, plus the verified draw helpers built on them.

use vstd::prelude::*;
use rand::Rng;
use crate::obstacle::{height_band, spec_height_band};
use crate::{MAX_GAP, MAX_OBSTACLE_HEIGHT, MIN_GAP};

verus! {

#[verifier::external_type_specification]
#[verifier::external_body]
pub struct ExThreadRng(rand::rngs::ThreadRng);

/// Relies on rand::Rng::gen_range on the inclusive range `lo..=hi`: the
/// value returned lies within the range. The empty range, on which the call
/// panics, is left out by `requires`.
#[verifier::external_body]
fn rand_between(rng: &mut rand::rngs::ThreadRng, lo: u16, hi: u16) -> (r: u16)
    requires
        lo <= hi,
    ensures
        lo <= r <= hi,
{
    rng.gen_range(lo..=hi)
}

/// Draw a spawn gap from the closed range `[MIN_GAP, MAX_GAP]`.
pub fn draw_gap(rng: &mut rand::rngs::ThreadRng) -> (gap: u16)
    ensures
        MIN_GAP <= gap <= MAX_GAP,
{
    rand_between(rng, MIN_GAP, MAX_GAP)
}

/// Draw an obstacle height from the score band.
pub fn draw_height(rng: &mut rand::rngs::ThreadRng, score: u64) -> (h: u8)
    ensures
        spec_height_band(score).0 <= h <= spec_height_band(score).1,
        1 <= h <= MAX_OBSTACLE_HEIGHT,
{
    let band = height_band(score);
    let v = rand_between(rng, band.0 as u16, band.1 as u16);
    v as u8
}

} // verus!
