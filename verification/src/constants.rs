//! Units and tuning constants.
//!
//! Time is counted in microseconds, velocity in millionths of a world unit per
//! second, and position in millionths of a millionth of a world unit, so that
//! `velocity * time` is a position and `GRAVITY * time` is a velocity without
//! any rounding.

use vstd::prelude::*;

verus! {

/// Position units in one world unit.
pub const UNIT: i64 = 1_000_000_000_000;

/// Velocity units in one world unit per second.
pub const SPEED_UNIT: i64 = 1_000_000;

/// Time units in one second.
pub const SECOND: u32 = 1_000_000;

/// Score units in one point.
pub const POINT: u64 = 1_000_000;

/// Side of the square player box (30 world units).
pub const PLAYER_SIZE: i64 = 30_000_000_000_000;

/// Side of the square obstacle box (30 world units).
pub const OBSTACLE_SIZE: i64 = 30_000_000_000_000;

/// Height of the floor line (-240 world units).
pub const GROUND_Y: i64 = -240_000_000_000_000;

/// Height of the ceiling line (240 world units).
pub const CEILING_Y: i64 = 240_000_000_000_000;

/// Velocity gained per microsecond of free fall (-600 world units per second squared).
pub const GRAVITY: i64 = -600;

/// Upward velocity given by a jump (300 world units per second).
pub const JUMP_VELOCITY: i64 = 300_000_000;

/// Speed at which a flipped player travels between floor and ceiling
/// (500 world units per second).
pub const FLIP_SPEED: i64 = 500_000_000;

/// Horizontal velocity of obstacles and coins (-200 world units per second).
pub const OBSTACLE_SPEED: i64 = -200_000_000;

/// Shortest base spawn time (1 second).
pub const MIN_SPAWN_TIME: u64 = 1_000_000;

/// Longest base spawn time (3 seconds).
pub const MAX_SPAWN_TIME: u64 = 3_000_000;

/// Floor under the difficulty-scaled spawn interval (half a second).
pub const MIN_SPAWN_INTERVAL: u64 = 500_000;

/// Interval of both spawn timers at the start of a run (2 seconds).
pub const START_INTERVAL: u64 = 2_000_000;

/// Fixed interval between coins (2 seconds).
pub const COIN_INTERVAL: u64 = 2_000_000;

/// Fixed horizontal position of the player (-200 world units).
pub const PLAYER_X: i64 = -200_000_000_000_000;

/// Obstacles appear at or right of this position (350 world units).
pub const OBSTACLE_SPAWN_MIN_X: i64 = 350_000_000_000_000;

/// Obstacles appear left of this position (450 world units).
pub const OBSTACLE_SPAWN_MAX_X: i64 = 450_000_000_000_000;

/// Coins appear at or right of this position (300 world units).
pub const COIN_SPAWN_MIN_X: i64 = 300_000_000_000_000;

/// Coins appear left of this position (500 world units).
pub const COIN_SPAWN_MAX_X: i64 = 500_000_000_000_000;

/// Height at which coins appear (the middle of the screen).
pub const COIN_Y: i64 = 0;

/// Anything that has scrolled left of this position is removed (-400 world units).
pub const CULL_X: i64 = -400_000_000_000_000;

/// A coin closer to the player than this is collected (30 world units).
pub const COLLECT_RADIUS: i64 = 30_000_000_000_000;

/// Score gained per microsecond of play (10 points per second).
pub const SCORE_RATE: u64 = 10;

/// Score from which the player flips instead of jumping, ceiling spikes
/// appear and coins spawn (100 points).
pub const FLIP_SCORE: u64 = 100_000_000;

/// Difficulty of a fresh run, in billionths.
pub const DIFFICULTY_ONE: u64 = 1_000_000_000;

/// Difficulty gained per score unit, in billionths (one whole step per 500 points).
pub const DIFFICULTY_PER_SCORE: u64 = 2;

/// The score stops growing here, which keeps the difficulty representable.
pub const MAX_SCORE: u64 = 9_000_000_000_000_000_000;

/// Price of the alternate skin, in coins.
pub const SKIN_COST: u32 = 1;

} // verus!
