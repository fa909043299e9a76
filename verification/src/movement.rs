//! Reacts to the fast-descent inputs (descend, drop). The engine assigns
//! them no effect yet: such an event leaves the field untouched.

use vstd::prelude::*;
use crate::components::Block;
use crate::key_update::KeyEvent;

verus! {

/// Handles the descend and drop inputs, which have no effect yet.
pub struct MovementSystem;

impl MovementSystem {
    /// One tick: consumes the pending events and changes nothing.
    pub fn run(&self, events: &Vec<KeyEvent>, blocks: &mut Vec<Block>)
        ensures
            final(blocks)@ == old(blocks)@,
    {
        let _ = events.len();
    }
}

} // verus!
