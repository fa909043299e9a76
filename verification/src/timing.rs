//! Advances the game's two clocks by the frame's elapsed time, in one
//! place, once per tick.

use vstd::prelude::*;
use crate::components::{sat_add, GravityTimer, SpawnTimer};

verus! {

/// Feeds each frame's elapsed time to the gravity and respawn timers.
pub struct TimingSystem;

impl TimingSystem {
    /// One tick: both timers take the elapsed milliseconds. The respawn
    /// timer only counts while armed.
    pub fn run(&self, gravity_timer: &mut GravityTimer, spawn_timer: &mut SpawnTimer, time_delta: u64)
        ensures
            final(gravity_timer).timer == sat_add(old(gravity_timer).timer, time_delta),
            final(gravity_timer).threshold == old(gravity_timer).threshold,
            final(spawn_timer).active == old(spawn_timer).active,
            final(spawn_timer).spawn_threshold == old(spawn_timer).spawn_threshold,
            final(spawn_timer).time_since_clear == if old(spawn_timer).active {
                sat_add(old(spawn_timer).time_since_clear, time_delta)
            } else {
                old(spawn_timer).time_since_clear
            },
    {
        gravity_timer.add_time(time_delta);
        spawn_timer.add_time(time_delta);
    }
}

} // verus!
