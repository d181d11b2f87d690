//! The score/difficulty curve.

use hopper::speed::{speed_for_score, speed_up};
use hopper::{FLOOR_MS, INITIAL_MS};

#[test]
fn interval_starts_at_initial() {
    assert_eq!(speed_for_score(0), INITIAL_MS);
    assert_eq!(speed_for_score(1), INITIAL_MS);
    assert_eq!(speed_for_score(2), INITIAL_MS);
}

#[test]
fn interval_decays_by_steps() {
    assert_eq!(speed_for_score(3), 45);
    assert_eq!(speed_for_score(4), 40);
    assert_eq!(speed_for_score(5), 35);
    assert_eq!(speed_for_score(9), 15);
    assert_eq!(speed_for_score(10), FLOOR_MS);
}

#[test]
fn interval_never_below_floor() {
    assert_eq!(speed_for_score(11), FLOOR_MS);
    assert_eq!(speed_for_score(1000), FLOOR_MS);
    assert_eq!(speed_for_score(u64::MAX), FLOOR_MS);
}

#[test]
fn interval_monotone_on_samples() {
    let mut prev = speed_for_score(0);
    for score in 1..100u64 {
        let cur = speed_for_score(score);
        assert!(cur <= prev);
        assert!(cur >= FLOOR_MS);
        prev = cur;
    }
}

#[test]
fn speed_up_holds_in_opening_band() {
    assert_eq!(speed_up(50, 0), 50);
    assert_eq!(speed_up(50, 2), 50);
}

#[test]
fn speed_up_steps_down_after_opening_band() {
    assert_eq!(speed_up(50, 3), 45);
    assert_eq!(speed_up(45, 4), 40);
    assert_eq!(speed_up(15, 10), 10);
}

#[test]
fn speed_up_clamps_at_ten() {
    assert_eq!(speed_up(14, 3), 10);
    assert_eq!(speed_up(10, 100), 10);
}
