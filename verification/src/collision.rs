//! Collision detection between the player sprite and the obstacle list.
//!
//! The player occupies `PLAYER_COLS` columns starting at its column and
//! `PLAYER_ROWS` rows whose bottom row is `ground_row + player_offset`
//! (the offset is zero or negative, so the sprite rises while jumping).
//! An obstacle of height `h` at column `x` occupies the rows
//! `ground_row - h` through `ground_row - 1` at that single column.
//! The test is a conservative overlap check: it errs toward collision at
//! exact edge alignment rather than miss an overlap.

use vstd::prelude::*;
use crate::obstacle::Obstacle;
use crate::{PLAYER_COLS, PLAYER_ROWS};

verus! {

/// Whether one obstacle overlaps the player: the obstacle's column falls in
/// the player's horizontal span, and either the player's bottom row sits at
/// or below the obstacle's top row, or the player's top row falls within the
/// obstacle's vertical span.
pub open spec fn spec_hit(o: Obstacle, ground_row: u16, player_offset: i32, player_col: u16) -> bool {
    let bottom = ground_row + player_offset;
    let top = bottom - (PLAYER_ROWS - 1);
    let obstacle_top = ground_row - o.height;
    let obstacle_bottom = ground_row - 1;
    &&& player_col <= o.pos <= player_col + (PLAYER_COLS - 1)
    &&& (bottom >= obstacle_top || (obstacle_top <= top <= obstacle_bottom))
}

/// Whether any obstacle in the list overlaps the player.
pub open spec fn spec_collision(
    obstacles: Seq<Obstacle>,
    ground_row: u16,
    player_offset: i32,
    player_col: u16,
) -> bool {
    exists|i: int|
        0 <= i < obstacles.len() && spec_hit(obstacles[i], ground_row, player_offset, player_col)
}

/// Decide whether the player collides with any obstacle. Pure: the result is
/// exactly `spec_collision` of the inputs, so equal inputs always give equal
/// results.
pub fn check_collision(
    obstacles: &Vec<Obstacle>,
    ground_row: u16,
    player_offset: i32,
    player_col: u16,
) -> (hit: bool)
    ensures
        hit == spec_collision(obstacles@, ground_row, player_offset, player_col),
{
    let mut i: usize = 0;
    while i < obstacles.len()
        invariant
            0 <= i <= obstacles@.len(),
            forall|j: int|
                0 <= j < i ==> !spec_hit(obstacles@[j], ground_row, player_offset, player_col),
        decreases obstacles@.len() - i,
    {
        let o = obstacles[i];
        let bottom: i64 = ground_row as i64 + player_offset as i64;
        let top: i64 = bottom - (PLAYER_ROWS as i64 - 1);
        let obstacle_top: i64 = ground_row as i64 - o.height as i64;
        let obstacle_bottom: i64 = ground_row as i64 - 1;
        let in_span = player_col <= o.pos && o.pos as u32 <= player_col as u32 + (PLAYER_COLS as u32 - 1);
        let vertical = bottom >= obstacle_top || (obstacle_top <= top && top <= obstacle_bottom);
        if in_span && vertical {
            assert(spec_hit(obstacles@[i as int], ground_row, player_offset, player_col));
            return true;
        }
        i = i + 1;
    }
    false
}

/// The collision test has no hidden state: it is a function of its inputs
/// alone, so two calls on identical inputs yield identical results.
pub proof fn lemma_collision_deterministic(
    obs1: Seq<Obstacle>,
    obs2: Seq<Obstacle>,
    ground_row: u16,
    player_offset: i32,
    player_col: u16,
)
    requires
        obs1 == obs2,
    ensures
        spec_collision(obs1, ground_row, player_offset, player_col)
            == spec_collision(obs2, ground_row, player_offset, player_col),
{
}

/// No false negatives at ground level: a grounded player is always flagged
/// as colliding with an obstacle whose column lies in the player's span.
pub proof fn lemma_grounded_collision(
    obstacles: Seq<Obstacle>,
    ground_row: u16,
    player_col: u16,
    i: int,
)
    requires
        0 <= i < obstacles.len(),
        obstacles[i].wf(),
        obstacles[i].height <= ground_row,
        player_col <= obstacles[i].pos <= player_col + (PLAYER_COLS - 1),
    ensures
        spec_collision(obstacles, ground_row, 0, player_col),
{
    assert(spec_hit(obstacles[i], ground_row, 0, player_col));
}

} // verus!
