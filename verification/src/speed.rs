//! The score/difficulty curve: how the tick interval shrinks as the score
//! rises, bounded below by `FLOOR_MS`.

use vstd::prelude::*;
use crate::{FLOOR_MS, INITIAL_MS};

verus! {

/// Tick interval, in milliseconds, owed at a given score: `INITIAL_MS` through
/// the opening band, then five milliseconds less for every further point,
/// never below `FLOOR_MS`.
pub open spec fn spec_speed_for_score(score: u64) -> u64 {
    if score <= 2 {
        INITIAL_MS
    } else if score - 2 >= (INITIAL_MS - FLOOR_MS) / 5 {
        FLOOR_MS
    } else {
        (INITIAL_MS - 5 * (score - 2)) as u64
    }
}

/// Current tick interval for a score: deterministic in the score alone,
/// starting at `INITIAL_MS` and decaying to `FLOOR_MS` as the score grows.
pub fn speed_for_score(score: u64) -> (interval: u64)
    ensures
        interval == spec_speed_for_score(score),
        FLOOR_MS <= interval <= INITIAL_MS,
{
    if score <= 2 {
        INITIAL_MS
    } else if score - 2 >= (INITIAL_MS - FLOOR_MS) / 5 {
        FLOOR_MS
    } else {
        INITIAL_MS - 5 * (score - 2)
    }
}

/// The difficulty curve is monotone: a higher score never yields a longer
/// tick interval, and the interval never drops below `FLOOR_MS`.
pub proof fn lemma_speed_monotone(s1: u64, s2: u64)
    requires
        s1 < s2,
    ensures
        spec_speed_for_score(s1) >= spec_speed_for_score(s2),
        spec_speed_for_score(s2) >= FLOOR_MS,
{
}

/// Stepwise variant of the speed curve kept for callers that carry the
/// current interval along: once the score has left the opening band, the
/// interval drops by five milliseconds, held at no less than ten.
pub fn speed_up(speed: u64, score: i32) -> (faster: u64)
    ensures
        faster == spec_speed_up(speed, score),
        speed >= FLOOR_MS ==> faster >= FLOOR_MS,
        score > 2 ==> faster <= speed || faster == FLOOR_MS,
{
    if score > 2 {
        if speed >= 15 {
            speed - 5
        } else {
            10
        }
    } else {
        speed
    }
}

/// What `speed_up` returns: the interval less one five-millisecond step,
/// held at no less than ten, once the score has passed the opening band.
pub open spec fn spec_speed_up(speed: u64, score: i32) -> u64 {
    if score > 2 {
        if speed >= 15 {
            (speed - 5) as u64
        } else {
            10
        }
    } else {
        speed
    }
}

} // verus!
