//! Core rule engine of a falling-block puzzle game: the play-field grid,
//! the falling piece with its pivot, gravity and locking, player-driven
//! translation and rotation with wall-kick resolution, collision checks,
//! spawn timing and the piece-supply randomizer.

pub mod collision;
pub mod components;
pub mod constants;
pub mod gravity;
pub mod key_update;
pub mod movement;
pub mod pos_update;
pub mod rotation;
pub mod spawn;
pub mod timing;
pub mod translation;
