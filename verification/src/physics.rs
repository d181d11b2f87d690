//! Player vertical physics: the gravity-driven jump arc.
//!
//! The player's vertical state is an offset from the ground row (zero when
//! grounded, negative while airborne) and a velocity in offset units per
//! tick. A jump sets the velocity to `JUMP_VELOCITY`; each tick while
//! jumping adds the velocity to the offset and `GRAVITY` to the velocity,
//! clamping the offset to zero (and zeroing the velocity) on landing.

use vstd::prelude::*;
use crate::{GRAVITY, JUMP_AIR_TICKS, JUMP_VELOCITY};

verus! {

/// The player's vertical state.
#[derive(Clone, Copy, PartialEq, Eq, Structural, Debug)]
pub struct Player {
    /// Vertical displacement from the ground row: 0 when grounded, negative
    /// while airborne.
    pub offset: i32,
    /// Vertical velocity in offset units per tick: negative is upward.
    pub velocity: i32,
    /// Whether a jump arc is in progress.
    pub jumping: bool,
}

impl Player {
    /// Well-formedness of the vertical state. A grounded player sits exactly
    /// on the ground with no velocity. An airborne player is somewhere on
    /// the one fixed jump arc, which ties the offset to the velocity: with
    /// `JUMP_VELOCITY == -3` and `GRAVITY == 1`, after `k` airborne ticks the
    /// velocity is `k - 3` and the offset is `k * (k - 7) / 2`, i.e.
    /// `(velocity + 3) * (velocity - 4) / 2`.
    pub open spec fn wf(self) -> bool {
        &&& (!self.jumping ==> self.offset == 0 && self.velocity == 0)
        &&& (self.jumping ==> {
            &&& JUMP_VELOCITY <= self.velocity <= 3
            &&& -6 <= self.offset <= 0
            &&& self.offset == (self.velocity + 3) * (self.velocity - 4) / 2
        })
    }

    /// A player standing on the ground.
    pub fn grounded() -> (p: Player)
        ensures
            p.wf(),
            !p.jumping,
            p.offset == 0,
    {
        Player { offset: 0i32, velocity: 0i32, jumping: false }
    }
}

/// The vertical state after one jump is triggered from the ground.
pub open spec fn spec_jump(p: Player) -> Player {
    Player { offset: p.offset, velocity: JUMP_VELOCITY, jumping: true }
}

/// The vertical state after one tick of integration: unchanged when not
/// jumping; otherwise the offset advances by the velocity and the velocity by
/// `GRAVITY`, and crossing back to or through ground level lands the player
/// with offset and velocity exactly zero.
pub open spec fn spec_step(p: Player) -> Player {
    if !p.jumping {
        p
    } else {
        let o = p.offset + p.velocity;
        if o >= 0 {
            Player { offset: 0i32, velocity: 0i32, jumping: false }
        } else {
            Player { offset: o as i32, velocity: (p.velocity + GRAVITY) as i32, jumping: true }
        }
    }
}

/// The vertical state after `n` ticks of integration.
pub open spec fn spec_steps(p: Player, n: nat) -> Player
    decreases n,
{
    if n == 0 {
        p
    } else {
        spec_step(spec_steps(p, (n - 1) as nat))
    }
}

/// Start a jump. Only a player that is not already jumping may trigger one;
/// the caller also keeps jumps out while the game is paused.
pub fn trigger_jump(p: &mut Player)
    requires
        old(p).wf(),
        !old(p).jumping,
    ensures
        *final(p) == spec_jump(*old(p)),
        final(p).wf(),
        final(p).jumping,
        final(p).offset == 0,
        final(p).velocity == JUMP_VELOCITY,
{
    p.jumping = true;
    p.velocity = JUMP_VELOCITY;
    proof {
        assert(JUMP_VELOCITY == -3i32);
        assert(p.velocity == -3i32);
        assert((p.velocity + 3) * (p.velocity - 4) == 0) by (nonlinear_arith)
            requires
                p.velocity == -3i32,
        {}
        assert((p.velocity + 3) * (p.velocity - 4) / 2 == 0);
    }
}

/// One tick of vertical integration, exactly `spec_step`.
pub fn physics_step(p: &mut Player)
    requires
        old(p).wf(),
    ensures
        *final(p) == spec_step(*old(p)),
        final(p).wf(),
        !old(p).jumping ==> *final(p) == *old(p),
{
    if p.jumping {
        let o = p.offset + p.velocity;
        if o >= 0 {
            p.offset = 0;
            p.velocity = 0;
            p.jumping = false;
        } else {
            let ghost v0: int = p.velocity as int;
            p.offset = o;
            p.velocity = p.velocity + GRAVITY;
            proof {
                let o1: int = p.offset as int;
                let v1: int = p.velocity as int;
                assert(o1 == (v1 + 3) * (v1 - 4) / 2 && -6 <= o1) by (nonlinear_arith)
                    requires
                        o1 == (v0 + 3) * (v0 - 4) / 2 + v0,
                        v1 == v0 + 1,
                        -3 <= v0 <= 3,
                {}
            }
        }
    }
}

/// A triggered jump returns the player to the ground after exactly
/// `JUMP_AIR_TICKS` ticks: the offset is strictly negative at every earlier
/// airborne tick, and at landing the offset and the velocity are clamped to
/// exactly zero, with no bounce.
pub proof fn lemma_jump_returns_to_ground(p: Player)
    requires
        p.wf(),
        !p.jumping,
    ensures
        spec_steps(spec_jump(p), JUMP_AIR_TICKS as nat) == p,
        forall|k: nat|
            1 <= k < JUMP_AIR_TICKS ==> (#[trigger] spec_steps(spec_jump(p), k)).offset < 0,
{
    let q = spec_jump(p);
    assert(spec_steps(q, 1) == spec_step(spec_steps(q, 0)));
    assert(spec_steps(q, 2) == spec_step(spec_steps(q, 1)));
    assert(spec_steps(q, 3) == spec_step(spec_steps(q, 2)));
    assert(spec_steps(q, 4) == spec_step(spec_steps(q, 3)));
    assert(spec_steps(q, 5) == spec_step(spec_steps(q, 4)));
    assert(spec_steps(q, 6) == spec_step(spec_steps(q, 5)));
    assert(spec_steps(q, 7) == spec_step(spec_steps(q, 6)));
    assert(spec_steps(q, 1) == Player { offset: -3i32, velocity: -2i32, jumping: true });
    assert(spec_steps(q, 2) == Player { offset: -5i32, velocity: -1i32, jumping: true });
    assert(spec_steps(q, 3) == Player { offset: -6i32, velocity: 0i32, jumping: true });
    assert(spec_steps(q, 4) == Player { offset: -6i32, velocity: 1i32, jumping: true });
    assert(spec_steps(q, 5) == Player { offset: -5i32, velocity: 2i32, jumping: true });
    assert(spec_steps(q, 6) == Player { offset: -3i32, velocity: 3i32, jumping: true });
    assert(spec_steps(q, 7) == Player { offset: 0i32, velocity: 0i32, jumping: false });
    assert(forall|k: nat|
        1 <= k < JUMP_AIR_TICKS ==> (#[trigger] spec_steps(q, k)).offset < 0) by {
        assert forall|k: nat| 1 <= k < JUMP_AIR_TICKS implies
            (#[trigger] spec_steps(q, k)).offset < 0 by {
            if k == 1 {
            } else if k == 2 {
            } else if k == 3 {
            } else if k == 4 {
            } else if k == 5 {
            } else {
                assert(k == 6);
            }
        }
    }
}

} // verus!
