//! The jump arc: a triggered jump follows the fixed gravity arc and lands
//! back at exactly zero with no bounce.

use hopper::physics::{physics_step, trigger_jump, Player};
use hopper::{JUMP_AIR_TICKS, JUMP_VELOCITY};

#[test]
fn jump_sets_upward_impulse() {
    let mut p = Player::grounded();
    trigger_jump(&mut p);
    assert!(p.jumping);
    assert_eq!(p.offset, 0);
    assert_eq!(p.velocity, JUMP_VELOCITY);
}

#[test]
fn jump_arc_offsets() {
    let mut p = Player::grounded();
    trigger_jump(&mut p);
    let expected = [-3, -5, -6, -6, -5, -3];
    for off in expected {
        physics_step(&mut p);
        assert!(p.jumping);
        assert_eq!(p.offset, off);
    }
}

#[test]
fn jump_lands_at_exactly_zero_after_fixed_ticks() {
    let mut p = Player::grounded();
    trigger_jump(&mut p);
    for tick in 1..=JUMP_AIR_TICKS {
        physics_step(&mut p);
        if tick < JUMP_AIR_TICKS {
            assert!(p.offset < 0, "airborne tick {tick} should be above ground");
            assert!(p.jumping);
        }
    }
    assert_eq!(p.offset, 0);
    assert_eq!(p.velocity, 0);
    assert!(!p.jumping);
}

#[test]
fn physics_step_is_identity_on_the_ground() {
    let mut p = Player::grounded();
    physics_step(&mut p);
    assert_eq!(p, Player::grounded());
}
