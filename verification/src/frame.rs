//! Assembly of the frame description handed to the renderer: where every
//! obstacle block and the player sprite stand, and the numbers the status
//! line shows. The renderer draws exactly what is listed here.

use vstd::prelude::*;
use crate::obstacle::Obstacle;
use crate::session::Session;
use crate::speed::{spec_speed_for_score, speed_for_score};
use crate::{MAX_OBSTACLE_HEIGHT, PLAYER_COL};

verus! {

/// One drawn block at a (column, row) coordinate.
#[derive(Clone, Copy, PartialEq, Eq, Structural, Debug)]
pub struct Cell {
    /// Column of the block.
    pub col: u16,
    /// Row of the block; rows grow downward.
    pub row: u16,
}

/// Everything the renderer needs for one frame of play.
pub struct Frame {
    /// Play-field width in columns.
    pub width: u16,
    /// Play-field height in rows.
    pub height: u16,
    /// Row of the ground line.
    pub ground_row: u16,
    /// Column of the player sprite.
    pub player_col: u16,
    /// Bottom row of the player sprite: the ground row plus the (zero or
    /// negative) jump offset.
    pub player_bottom_row: u16,
    /// Every obstacle block, front obstacle first, top block first within
    /// an obstacle.
    pub blocks: Vec<Cell>,
    /// Current score.
    pub score: u64,
    /// High score carried across sessions.
    pub high_score: u64,
    /// Current tick interval in milliseconds: the speed indicator.
    pub interval_ms: u64,
    /// Ticks elapsed in this session: the basis of the elapsed-time text.
    pub ticks: u64,
}

/// The blocks of one obstacle: its stack occupies the rows from
/// `ground_row - height` up to `ground_row - 1` at its single column.
pub open spec fn spec_stack(o: Obstacle, ground_row: u16) -> Seq<Cell> {
    Seq::new(
        o.height as nat,
        |j: int| Cell { col: o.pos, row: (ground_row - o.height + j) as u16 },
    )
}

/// The blocks of the first `n` obstacles, in order.
pub open spec fn spec_blocks_prefix(obs: Seq<Obstacle>, ground_row: u16, n: int) -> Seq<Cell>
    decreases n,
{
    if n <= 0 {
        Seq::empty()
    } else {
        spec_blocks_prefix(obs, ground_row, n - 1) + spec_stack(obs[n - 1], ground_row)
    }
}

/// The blocks of every obstacle, front obstacle first.
pub open spec fn spec_blocks(obs: Seq<Obstacle>, ground_row: u16) -> Seq<Cell> {
    spec_blocks_prefix(obs, ground_row, obs.len() as int)
}

/// Assemble the frame description for a session: the block list is exactly
/// the stacked blocks of every obstacle over the ground row, the player's
/// bottom row is the ground row raised by the jump offset, and the status
/// numbers are the session's score, the carried high score, the tick count,
/// and the interval the difficulty curve owes the score.
pub fn build_frame(s: &Session, high_score: u64) -> (f: Frame)
    requires
        s.wf(),
    ensures
        f.width == s.width,
        f.height == s.height,
        f.ground_row == s.spec_ground_row(),
        f.player_col == PLAYER_COL,
        f.player_bottom_row == s.spec_ground_row() + s.player.offset,
        f.blocks@ == spec_blocks(s.obstacles@, s.spec_ground_row()),
        f.score == s.score,
        f.high_score == high_score,
        f.interval_ms == spec_speed_for_score(s.score),
        f.ticks == s.ticks,
{
    let ground_row = s.ground_row();
    let mut blocks: Vec<Cell> = Vec::new();
    let mut i: usize = 0;
    while i < s.obstacles.len()
        invariant
            0 <= i <= s.obstacles@.len(),
            s.wf(),
            ground_row == s.spec_ground_row(),
            blocks@ == spec_blocks_prefix(s.obstacles@, ground_row, i as int),
        decreases s.obstacles@.len() - i,
    {
        let o = s.obstacles[i];
        let mut j: u8 = 0;
        while j < o.height
            invariant
                0 <= j <= o.height,
                o == s.obstacles@[i as int],
                0 <= i < s.obstacles@.len(),
                s.wf(),
                ground_row == s.spec_ground_row(),
                blocks@ == spec_blocks_prefix(s.obstacles@, ground_row, i as int)
                    + spec_stack(o, ground_row).subrange(0, j as int),
            decreases o.height - j,
        {
            proof {
                assert(o.wf());
                assert(o.height <= MAX_OBSTACLE_HEIGHT);
                assert(ground_row >= 8);
            }
            blocks.push(Cell { col: o.pos, row: ground_row - o.height as u16 + j as u16 });
            proof {
                let st = spec_stack(o, ground_row);
                assert(st.subrange(0, j + 1) =~= st.subrange(0, j as int).push(st[j as int]));
            }
            j = j + 1;
        }
        proof {
            let st = spec_stack(o, ground_row);
            assert(st.subrange(0, o.height as int) =~= st);
            assert(blocks@ =~= spec_blocks_prefix(s.obstacles@, ground_row, i + 1));
        }
        i = i + 1;
    }
    let offset = s.player.offset;
    proof {
        assert(-6 <= s.player.offset <= 0);
    }
    let player_bottom_row = (ground_row as i32 + offset) as u16;
    Frame {
        width: s.width,
        height: s.height,
        ground_row,
        player_col: PLAYER_COL,
        player_bottom_row,
        blocks,
        score: s.score,
        high_score,
        interval_ms: speed_for_score(s.score),
        ticks: s.ticks,
    }
}

} // verus!
