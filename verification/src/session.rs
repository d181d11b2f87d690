//! One play-through: the per-session state and the fixed-tick update that
//! integrates player physics, obstacle motion, removal with scoring, and
//! gap-randomized spawning.

use vstd::prelude::*;
use crate::obstacle::{spec_height_band, Obstacle};
use crate::physics::{physics_step, spec_step, Player};
use crate::rng::{draw_gap, draw_height};
use crate::{MAX_GAP, MIN_GAP, MIN_HEIGHT, MIN_WIDTH};

verus! {

/// The state of one play-through. Created on entering play, discarded on
/// returning to the title screen; the high score lives outside it.
pub struct Session {
    /// Play-field width in columns, sampled once at session start.
    pub width: u16,
    /// Play-field height in rows, sampled once at session start.
    pub height: u16,
    /// Obstacles passed so far; rises by one whenever an obstacle leaves at
    /// the left edge.
    pub score: u64,
    /// Ticks elapsed since the session started.
    pub ticks: u64,
    /// The player's vertical state.
    pub player: Player,
    /// Upcoming hazards, oldest (leftmost) first.
    pub obstacles: Vec<Obstacle>,
    /// Whether play is suspended; physics and spawning do not advance while
    /// set.
    pub paused: bool,
}

/// Every obstacle slid one column leftward.
pub open spec fn spec_move(obs: Seq<Obstacle>) -> Seq<Obstacle> {
    obs.map(|i: int, o: Obstacle| Obstacle { pos: (o.pos - 1) as u16, height: o.height })
}

/// Whether the front (oldest) obstacle has reached the left edge and is due
/// for removal.
pub open spec fn spec_removed(obs: Seq<Obstacle>) -> bool {
    obs.len() > 0 && obs[0].pos == 0
}

/// The obstacle list after removing a front obstacle that reached the left
/// edge; at most one leaves per tick.
pub open spec fn spec_remove_front(obs: Seq<Obstacle>) -> Seq<Obstacle> {
    if spec_removed(obs) {
        obs.drop_first()
    } else {
        obs
    }
}

/// Whether a new obstacle is due: the list is empty, or the rearmost
/// obstacle has come at least `gap` columns in from the right edge.
pub open spec fn spec_should_spawn(obs: Seq<Obstacle>, width: u16, gap: u16) -> bool {
    obs.len() == 0 || obs.last().pos <= width - gap
}

/// The obstacle list after spawning: a new obstacle of height `h` appears at
/// the far-right column when one is due.
pub open spec fn spec_spawn(obs: Seq<Obstacle>, width: u16, gap: u16, h: u8) -> Seq<Obstacle> {
    if spec_should_spawn(obs, width, gap) {
        obs.push(Obstacle { pos: width, height: h })
    } else {
        obs
    }
}

/// How one tick transforms a session, given the tick's random draws: the
/// player integrates one physics step; every obstacle slides one column
/// left; a front obstacle at the left edge is removed and scores one point;
/// a new obstacle of height `h` spawns at the right edge when due; the tick
/// count rises by one; dimensions and the pause flag are untouched.
pub open spec fn spec_advanced(pre: Session, gap: u16, h: u8, post: Session) -> bool {
    let moved = spec_move(pre.obstacles@);
    let survived = spec_remove_front(moved);
    &&& post.width == pre.width
    &&& post.height == pre.height
    &&& post.paused == pre.paused
    &&& post.ticks == pre.ticks + 1
    &&& post.player == spec_step(pre.player)
    &&& post.score == pre.score + (if spec_removed(moved) { 1int } else { 0int })
    &&& post.obstacles@ == spec_spawn(survived, pre.width, gap, h)
}

impl Session {
    /// Well-formedness of a session between ticks: the play field is large
    /// enough; the player is on the ground or on the jump arc; the score
    /// never exceeds the tick count; every obstacle is well formed, on the
    /// field, and off the left edge; and consecutive obstacles stand at
    /// least `MIN_GAP` columns apart, oldest first.
    pub open spec fn wf(self) -> bool {
        &&& self.width >= MIN_WIDTH
        &&& self.height >= MIN_HEIGHT
        &&& self.player.wf()
        &&& self.score <= self.ticks
        &&& forall|i: int|
            0 <= i < self.obstacles@.len() ==> {
                &&& (#[trigger] self.obstacles@[i]).wf()
                &&& 1 <= self.obstacles@[i].pos <= self.width
            }
        &&& forall|i: int|
            1 <= i < self.obstacles@.len()
                ==> self.obstacles@[i - 1].pos + MIN_GAP <= (#[trigger] self.obstacles@[i]).pos
    }

    /// Row of the walking surface: a fixed row near the bottom of the play
    /// field.
    pub open spec fn spec_ground_row(self) -> u16 {
        (self.height - 2) as u16
    }

    /// Row of the walking surface.
    pub fn ground_row(&self) -> (row: u16)
        requires
            self.height >= MIN_HEIGHT,
        ensures
            row == self.spec_ground_row(),
    {
        self.height - 2
    }

    /// A fresh session on a play field of the given dimensions: score and
    /// tick count zero, the player grounded, no obstacles yet (the spawner
    /// fills the empty list on the first tick), not paused.
    pub fn new(width: u16, height: u16) -> (s: Session)
        requires
            width >= MIN_WIDTH,
            height >= MIN_HEIGHT,
        ensures
            s.wf(),
            s.width == width,
            s.height == height,
            s.score == 0,
            s.ticks == 0,
            s.player == (Player { offset: 0i32, velocity: 0i32, jumping: false }),
            s.obstacles@.len() == 0,
            !s.paused,
    {
        Session {
            width,
            height,
            score: 0,
            ticks: 0,
            player: Player { offset: 0, velocity: 0, jumping: false },
            obstacles: Vec::new(),
            paused: false,
        }
    }
}

/// One tick of the update, with the tick's random draws passed in: `gap` is
/// the spawn gap for this tick and `new_height` the height of the obstacle
/// spawned, if one is due. Deterministic in its arguments.
pub fn advance_tick_with(s: &mut Session, gap: u16, new_height: u8)
    requires
        old(s).wf(),
        !old(s).paused,
        old(s).ticks < u64::MAX,
        MIN_GAP <= gap <= MAX_GAP,
        spec_height_band(old(s).score).0 <= new_height <= spec_height_band(old(s).score).1,
    ensures
        final(s).wf(),
        spec_advanced(*old(s), gap, new_height, *final(s)),
{
    s.ticks = s.ticks + 1;
    physics_step(&mut s.player);

    let ghost pre_obs = old(s).obstacles@;

    let mut moved: Vec<Obstacle> = Vec::new();
    let mut i: usize = 0;
    while i < s.obstacles.len()
        invariant
            s.obstacles@ == pre_obs,
            0 <= i <= pre_obs.len(),
            moved@.len() == i,
            forall|j: int| 0 <= j < pre_obs.len() ==> 1 <= (#[trigger] pre_obs[j]).pos,
            forall|j: int| 0 <= j < i ==> #[trigger] moved@[j] == spec_move(pre_obs)[j],
        decreases pre_obs.len() - i,
    {
        let o = s.obstacles[i];
        moved.push(Obstacle { pos: o.pos - 1, height: o.height });
        i = i + 1;
    }
    proof {
        assert(moved@ =~= spec_move(pre_obs));
    }
    s.obstacles = moved;

    if s.obstacles.len() > 0 && s.obstacles[0].pos == 0 {
        s.obstacles.remove(0);
        s.score = s.score + 1;
        proof {
            assert(s.obstacles@ =~= spec_remove_front(spec_move(pre_obs)));
        }
    }
    let ghost survived = s.obstacles@;
    proof {
        assert(survived == spec_remove_front(spec_move(pre_obs)));
    }

    let should_spawn: bool = if s.obstacles.len() == 0 {
        true
    } else {
        s.obstacles[s.obstacles.len() - 1].pos <= s.width - gap
    };
    if should_spawn {
        let w = s.width;
        s.obstacles.push(Obstacle { pos: w, height: new_height });
    }
    proof {
        assert(s.obstacles@ == spec_spawn(survived, old(s).width, gap, new_height));
        assert(spec_advanced(*old(s), gap, new_height, *s));
    }
}

/// One tick of the update, drawing the spawn gap and the new obstacle's
/// height from the given generator. Whatever the draws, the tick relates
/// the old session to the new one as `spec_advanced` with some gap in
/// `[MIN_GAP, MAX_GAP]` and some height in the score band.
pub fn advance_tick(s: &mut Session, rng: &mut rand::rngs::ThreadRng)
    requires
        old(s).wf(),
        !old(s).paused,
        old(s).ticks < u64::MAX,
    ensures
        final(s).wf(),
        exists|gap: u16, h: u8|
            {
                &&& MIN_GAP <= gap <= MAX_GAP
                &&& spec_height_band(old(s).score).0 <= h <= spec_height_band(old(s).score).1
                &&& #[trigger] spec_advanced(*old(s), gap, h, *final(s))
            },
{
    let gap = draw_gap(rng);
    let h = draw_height(rng, s.score);
    advance_tick_with(s, gap, h);
}

/// Each obstacle moves by exactly one column per tick, never skipping past
/// the left edge, and an obstacle is removed only at exactly column zero:
/// positions are non-increasing over an obstacle's lifetime and reach zero
/// exactly once, on the tick that removes it.
pub proof fn lemma_unit_motion(pre: Session, gap: u16, h: u8, post: Session)
    requires
        pre.wf(),
        spec_advanced(pre, gap, h, post),
    ensures
        spec_move(pre.obstacles@).len() == pre.obstacles@.len(),
        forall|i: int|
            0 <= i < pre.obstacles@.len()
                ==> (#[trigger] spec_move(pre.obstacles@)[i]).pos == pre.obstacles@[i].pos - 1,
        spec_removed(spec_move(pre.obstacles@)) <==> (pre.obstacles@.len() > 0
            && pre.obstacles@[0].pos == 1),
        post.score == pre.score + (if pre.obstacles@.len() > 0 && pre.obstacles@[0].pos == 1 {
            1int
        } else {
            0int
        }),
{
}

/// The spawner keeps obstacles fair: any two consecutive obstacles of a
/// well-formed session, in spawn order, stand at least `MIN_GAP` columns
/// apart, so no two spawns ever land closer than `MIN_GAP`.
pub proof fn lemma_spawn_gap(s: Session, i: int)
    requires
        s.wf(),
        1 <= i < s.obstacles@.len(),
    ensures
        s.obstacles@[i].pos - s.obstacles@[i - 1].pos >= MIN_GAP,
{
}

/// Obstacle positions strictly increase from the front (oldest) to the back
/// (newest) of the list: the list is ordered by spawn time.
pub proof fn lemma_positions_increase(s: Session, i: int, j: int)
    requires
        s.wf(),
        0 <= i < j < s.obstacles@.len(),
    ensures
        s.obstacles@[i].pos + MIN_GAP <= s.obstacles@[j].pos,
    decreases j - i,
{
    if j > i + 1 {
        lemma_positions_increase(s, i, j - 1);
    }
}

/// At most one obstacle occupies the just-spawned far-right column at any
/// tick: two distinct obstacles never share it.
pub proof fn lemma_one_just_spawned(s: Session, i: int, j: int)
    requires
        s.wf(),
        0 <= i < j < s.obstacles@.len(),
    ensures
        !(s.obstacles@[i].pos == s.width && s.obstacles@[j].pos == s.width),
{
    lemma_positions_increase(s, i, j);
}

} // verus!
