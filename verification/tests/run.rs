//! Sessions: obstacle motion, removal and scoring, and the spawner's gap
//! and height guarantees, with both scripted and real random draws.

use hopper::obstacle::height_band;
use hopper::session::{advance_tick, advance_tick_with, Session};
use hopper::{MAX_GAP, MIN_GAP};

#[test]
fn first_tick_spawns_at_far_right() {
    let mut s = Session::new(80, 24);
    advance_tick_with(&mut s, MAX_GAP, 1);
    assert_eq!(s.obstacles.len(), 1);
    assert_eq!(s.obstacles[0].pos, 80);
    assert_eq!(s.obstacles[0].height, 1);
    assert_eq!(s.score, 0);
    assert_eq!(s.ticks, 1);
}

#[test]
fn obstacle_crosses_field_and_scores() {
    let mut s = Session::new(80, 24);
    advance_tick_with(&mut s, MAX_GAP, 1);
    assert_eq!(s.obstacles[0].pos, 80);
    for _ in 0..79 {
        advance_tick_with(&mut s, MAX_GAP, 1);
    }
    assert_eq!(s.obstacles[0].pos, 1);
    assert_eq!(s.score, 0);
    advance_tick_with(&mut s, MAX_GAP, 1);
    assert_eq!(s.score, 1);
    assert!(s.obstacles.iter().all(|o| o.pos > 0));
}

#[test]
fn one_column_per_tick_never_skips_zero() {
    let mut s = Session::new(80, 24);
    advance_tick_with(&mut s, MAX_GAP, 1);
    let mut prev = s.obstacles[0].pos;
    for _ in 0..79 {
        advance_tick_with(&mut s, MAX_GAP, 1);
        let cur = s.obstacles[0].pos;
        assert_eq!(cur, prev - 1);
        prev = cur;
    }
    assert_eq!(prev, 1);
}

#[test]
fn spawns_keep_min_gap_apart() {
    let mut s = Session::new(120, 24);
    for _ in 0..400 {
        advance_tick_with(&mut s, MIN_GAP, 1);
        for w in s.obstacles.windows(2) {
            assert!(w[1].pos - w[0].pos >= MIN_GAP);
        }
    }
    assert!(s.score > 0);
}

#[test]
fn random_run_keeps_invariants() {
    let mut rng = rand::thread_rng();
    let mut s = Session::new(100, 24);
    for _ in 0..500 {
        advance_tick(&mut s, &mut rng);
        let band = height_band(s.score);
        for o in &s.obstacles {
            assert!(o.pos >= 1 && o.pos <= 100);
            assert!(o.height >= 1 && o.height <= 3);
        }
        assert!(band.0 >= 1 && band.1 <= 3);
        for w in s.obstacles.windows(2) {
            assert!(w[1].pos - w[0].pos >= MIN_GAP);
        }
        assert!(!s.obstacles.is_empty());
        assert!(s.score <= s.ticks);
    }
}

#[test]
fn spawned_heights_follow_score_band() {
    let mut rng = rand::thread_rng();
    for _ in 0..50 {
        let mut s = Session::new(100, 24);
        advance_tick(&mut s, &mut rng);
        assert!(s.obstacles[0].height >= 1 && s.obstacles[0].height <= 2);
    }
}
