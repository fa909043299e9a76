//! Fixed parameters of the play field, the spawn point and the input timing.
//!
//! The grid uses doubled-unit coordinates: one logical cell step is 2 raw
//! units, so that wall-kick arithmetic stays integral. Every block coordinate
//! is therefore even.

use vstd::prelude::*;

verus! {

/// Width of the play field in raw (doubled) units; legal x range is
/// `0 ..= ARENA_WIDTH - 2`.
pub const ARENA_WIDTH: i32 = 20;

/// Height of the play field in raw (doubled) units.
pub const ARENA_HEIGHT: i32 = 46;

/// x of the point every new piece is placed around.
pub const SPAWN_X: i32 = 8;

/// y of the point every new piece is placed around.
pub const SPAWN_Y: i32 = 42;

/// Holding a key this long (in milliseconds) makes it start repeating.
pub const KEY_REPEAT_THRESHOLD_MS: u64 = 300;

/// Interval (in milliseconds) between repeated presses of a held key.
pub const KEY_REPEAT_TIME_MS: u64 = 70;

/// Number of distinct input kinds the engine reacts to.
pub const INPUT_COUNT: usize = 5;

} // verus!
