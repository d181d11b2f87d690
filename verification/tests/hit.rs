//! The collision detector.

use hopper::collision::check_collision;
use hopper::obstacle::Obstacle;
use hopper::PLAYER_COL;

const GROUND_ROW: u16 = 22;

#[test]
fn grounded_player_hits_obstacle_at_its_column() {
    let obstacles = vec![Obstacle { pos: PLAYER_COL, height: 1 }];
    assert!(check_collision(&obstacles, GROUND_ROW, 0, PLAYER_COL));
}

#[test]
fn obstacle_ten_columns_ahead_misses() {
    let obstacles = vec![Obstacle { pos: PLAYER_COL + 10, height: 1 }];
    assert!(!check_collision(&obstacles, GROUND_ROW, 0, PLAYER_COL));
}

#[test]
fn grounded_player_hits_anywhere_in_its_span() {
    for d in 0..3u16 {
        let obstacles = vec![Obstacle { pos: PLAYER_COL + d, height: 1 }];
        assert!(check_collision(&obstacles, GROUND_ROW, 0, PLAYER_COL));
    }
    let obstacles = vec![Obstacle { pos: PLAYER_COL + 3, height: 1 }];
    assert!(!check_collision(&obstacles, GROUND_ROW, 0, PLAYER_COL));
}

#[test]
fn jump_peak_clears_short_obstacle() {
    let obstacles = vec![Obstacle { pos: PLAYER_COL, height: 1 }];
    assert!(!check_collision(&obstacles, GROUND_ROW, -6, PLAYER_COL));
}

#[test]
fn jump_peak_clears_tall_obstacle() {
    let obstacles = vec![Obstacle { pos: PLAYER_COL, height: 3 }];
    assert!(!check_collision(&obstacles, GROUND_ROW, -6, PLAYER_COL));
}

#[test]
fn low_arc_still_hits_tall_obstacle() {
    let obstacles = vec![Obstacle { pos: PLAYER_COL, height: 3 }];
    assert!(check_collision(&obstacles, GROUND_ROW, -3, PLAYER_COL));
}

#[test]
fn empty_list_never_collides() {
    let obstacles: Vec<Obstacle> = Vec::new();
    assert!(!check_collision(&obstacles, GROUND_ROW, 0, PLAYER_COL));
}

#[test]
fn detector_is_idempotent() {
    let obstacles = vec![
        Obstacle { pos: PLAYER_COL, height: 2 },
        Obstacle { pos: PLAYER_COL + 20, height: 1 },
    ];
    let first = check_collision(&obstacles, GROUND_ROW, 0, PLAYER_COL);
    let second = check_collision(&obstacles, GROUND_ROW, 0, PLAYER_COL);
    assert_eq!(first, second);
    let third = check_collision(&obstacles, GROUND_ROW, -6, PLAYER_COL);
    let fourth = check_collision(&obstacles, GROUND_ROW, -6, PLAYER_COL);
    assert_eq!(third, fourth);
}
