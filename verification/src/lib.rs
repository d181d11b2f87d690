//! Core logic of a terminal side-scrolling jumping game: a player sprite
//! auto-runs along a ground line, jumps over incoming obstacles on a
//! gravity-driven arc, and the score rises as obstacles are passed while the
//! tick interval shrinks toward a fixed floor.
//!
//! Everything here is pure state-transition logic: player physics, obstacle
//! motion and spawning, collision geometry, the score/difficulty curve, the
//! screen state machine, and assembly of the frame description handed to a
//! renderer. Terminal I/O lives outside this crate.

use vstd::prelude::*;

pub mod collision;
pub mod frame;
pub mod game;
pub mod obstacle;
pub mod physics;
pub mod rng;
pub mod session;
pub mod speed;

verus! {

/// Downward acceleration, in offset units per tick squared.
pub const GRAVITY: i32 = 1;

/// Upward impulse given to the player's vertical velocity when a jump starts.
pub const JUMP_VELOCITY: i32 = -3;

/// Number of ticks a jump spends off the ground before landing, with the
/// fixed `GRAVITY` and `JUMP_VELOCITY` above.
pub const JUMP_AIR_TICKS: u64 = 7;

/// Tick interval at score zero, in milliseconds.
pub const INITIAL_MS: u64 = 50;

/// Lower bound of the tick interval, in milliseconds: the game never runs
/// faster than this.
pub const FLOOR_MS: u64 = 10;

/// Smallest horizontal distance allowed between consecutively spawned
/// obstacles, in columns.
pub const MIN_GAP: u16 = 10;

/// Largest spawn gap the spawner will draw, in columns.
pub const MAX_GAP: u16 = 30;

/// Tallest obstacle the spawner can produce, in stacked blocks.
pub const MAX_OBSTACLE_HEIGHT: u8 = 3;

/// Column where the player sprite's horizontal span starts.
pub const PLAYER_COL: u16 = 2;

/// Width of the player sprite, in columns.
pub const PLAYER_COLS: u16 = 3;

/// Height of the player sprite, in rows.
pub const PLAYER_ROWS: u16 = 3;

/// Smallest play-field width the logic accepts; leaves room for the player,
/// the widest spawn gap, and at least one obstacle in flight.
pub const MIN_WIDTH: u16 = 48;

/// Smallest play-field height the logic accepts; leaves room for the status
/// line, the sprite rows, and the ground line.
pub const MIN_HEIGHT: u16 = 10;

} // verus!
