//! Obstacles: single-column hazards of one to `MAX_OBSTACLE_HEIGHT` stacked
//! blocks that slide one column leftward per tick.

use vstd::prelude::*;
use crate::MAX_OBSTACLE_HEIGHT;

verus! {

/// One upcoming hazard: a stack of blocks at a single column.
#[derive(Clone, Copy, PartialEq, Eq, Structural, Debug)]
pub struct Obstacle {
    /// Horizontal position, in columns; decreases by one each tick.
    pub pos: u16,
    /// Number of vertically stacked blocks, between one and
    /// `MAX_OBSTACLE_HEIGHT`.
    pub height: u8,
}

impl Obstacle {
    /// Well-formedness: the block stack is between one and
    /// `MAX_OBSTACLE_HEIGHT` tall.
    pub open spec fn wf(self) -> bool {
        1 <= self.height <= MAX_OBSTACLE_HEIGHT
    }
}

/// Range of obstacle heights the spawner may draw at a given score: low and
/// high bound, both inclusive. The band widens, then rises, as the score
/// grows: short stacks early, any stack mid-game, tall stacks late.
pub open spec fn spec_height_band(score: u64) -> (u8, u8) {
    if score < 5 {
        (1u8, 2u8)
    } else if score < 15 {
        (1u8, 3u8)
    } else {
        (2u8, 3u8)
    }
}

/// The score-banded obstacle height range, low and high bound inclusive.
pub fn height_band(score: u64) -> (band: (u8, u8))
    ensures
        band == spec_height_band(score),
        1 <= band.0 <= band.1 <= MAX_OBSTACLE_HEIGHT,
{
    if score < 5 {
        (1u8, 2u8)
    } else if score < 15 {
        (1u8, 3u8)
    } else {
        (2u8, 3u8)
    }
}

} // verus!
