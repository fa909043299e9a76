//! Turns per-tick key states into discrete input events, with key-repeat:
//! a fresh press fires one event at once; a key held past the repeat
//! threshold fires further events at a fixed interval.
//!
//! The five inputs are indexed in a fixed order: left, right, rotate
//! clockwise, descend, drop.

use vstd::prelude::*;
use crate::components::sat_add;
use crate::constants::{INPUT_COUNT, KEY_REPEAT_THRESHOLD_MS, KEY_REPEAT_TIME_MS};

verus! {

/// A discrete, already-debounced player command.
#[derive(Clone, Copy, PartialEq, Eq, Structural, Debug)]
pub enum KeyEvent {
    Left,
    Right,
    RotateClockwise,
    RotateCounterClockwise,
    Descend,
    Drop,
}

/// What one tracked key remembers between ticks: whether it was down last
/// tick, how long it has been held, and how long since the last repeat.
#[derive(Clone, Copy, PartialEq, Eq, Structural, Debug)]
pub struct KeyState {
    pub active: bool,
    pub total_time: u64,
    pub repeat_time: u64,
}

/// The event an input index stands for.
pub open spec fn event_of_index(i: int) -> KeyEvent {
    if i == 0 {
        KeyEvent::Left
    } else if i == 1 {
        KeyEvent::Right
    } else if i == 2 {
        KeyEvent::RotateClockwise
    } else if i == 3 {
        KeyEvent::Descend
    } else {
        KeyEvent::Drop
    }
}

/// The state a fresh key tracker starts in: not held, and with the repeat
/// clock past its interval so a fresh hold does not instantly repeat.
pub open spec fn initial_key_state() -> KeyState {
    KeyState { active: false, total_time: 0, repeat_time: (1000 + KEY_REPEAT_TIME_MS) as u64 }
}

/// One tick of one key's tracker: the new tracker state.
pub open spec fn key_step(s: KeyState, pressed: bool, delta: u64) -> KeyState {
    if pressed && s.active {
        if s.total_time > KEY_REPEAT_THRESHOLD_MS {
            if s.repeat_time > KEY_REPEAT_TIME_MS {
                KeyState { repeat_time: 0, ..s }
            } else {
                KeyState { repeat_time: sat_add(s.repeat_time, delta), ..s }
            }
        } else {
            KeyState { total_time: sat_add(s.total_time, delta), ..s }
        }
    } else if pressed && !s.active {
        KeyState { active: true, ..s }
    } else if !pressed && s.active {
        KeyState { active: false, total_time: 0, repeat_time: (1 + KEY_REPEAT_TIME_MS) as u64 }
    } else {
        s
    }
}

/// Whether one tick of one key's tracker emits an event: on a fresh press,
/// or on a repeat once the key has been held past the threshold.
pub open spec fn key_emits(s: KeyState, pressed: bool, delta: u64) -> bool {
    if pressed && s.active {
        s.total_time > KEY_REPEAT_THRESHOLD_MS && s.repeat_time > KEY_REPEAT_TIME_MS
    } else {
        pressed && !s.active
    }
}

/// The events of the first `n` input indices, in index order.
pub open spec fn events_upto(states: Seq<KeyState>, pressed: Seq<bool>, delta: u64, n: int) -> Seq<
    KeyEvent,
>
    decreases n,
{
    if n <= 0 {
        Seq::empty()
    } else if key_emits(states[n - 1], pressed[n - 1], delta) {
        events_upto(states, pressed, delta, n - 1).push(event_of_index(n - 1))
    } else {
        events_upto(states, pressed, delta, n - 1)
    }
}

/// Tracks the five player keys across ticks and emits their events.
pub struct KeyUpdateSystem {
    pub key_data: Vec<KeyState>,
}

impl KeyUpdateSystem {
    /// A tracker per input, each in the fresh state.
    pub fn new() -> (r: KeyUpdateSystem)
        ensures
            r.key_data@.len() == INPUT_COUNT,
            forall|i: int| 0 <= i < INPUT_COUNT ==> r.key_data@[i] == initial_key_state(),
    {
        let mut key_data: Vec<KeyState> = Vec::new();
        let mut i: usize = 0;
        while i < INPUT_COUNT
            invariant
                0 <= i <= INPUT_COUNT,
                key_data@.len() == i,
                forall|j: int| 0 <= j < i ==> key_data@[j] == initial_key_state(),
            decreases INPUT_COUNT - i,
        {
            key_data.push(KeyState { active: false, total_time: 0, repeat_time: 1000 + KEY_REPEAT_TIME_MS });
            i = i + 1;
        }
        KeyUpdateSystem { key_data }
    }

    /// One tick: steps every key's tracker by the elapsed time against
    /// whether that key is currently down, and returns the events fired this
    /// tick, in input-index order.
    pub fn run(&mut self, pressed: &Vec<bool>, time_delta: u64) -> (events: Vec<KeyEvent>)
        requires
            old(self).key_data@.len() == INPUT_COUNT,
            pressed@.len() == INPUT_COUNT,
        ensures
            final(self).key_data@.len() == INPUT_COUNT,
            forall|i: int|
                0 <= i < INPUT_COUNT ==> final(self).key_data@[i] == key_step(
                    old(self).key_data@[i],
                    pressed@[i],
                    time_delta,
                ),
            events@ == events_upto(old(self).key_data@, pressed@, time_delta, INPUT_COUNT as int),
    {
        let ghost pre = self.key_data@;
        let mut events: Vec<KeyEvent> = Vec::new();
        let mut i: usize = 0;
        while i < INPUT_COUNT
            invariant
                0 <= i <= INPUT_COUNT,
                self.key_data@.len() == INPUT_COUNT,
                pressed@.len() == INPUT_COUNT,
                forall|j: int| 0 <= j < i ==> self.key_data@[j] == key_step(pre[j], pressed@[j], time_delta),
                forall|j: int| i <= j < INPUT_COUNT ==> self.key_data@[j] == pre[j],
                events@ == events_upto(pre, pressed@, time_delta, i as int),
            decreases INPUT_COUNT - i,
        {
            let s = self.key_data[i];
            let down = pressed[i];
            if down && s.active {
                if s.total_time > KEY_REPEAT_THRESHOLD_MS {
                    if s.repeat_time > KEY_REPEAT_TIME_MS {
                        events.push(Self::event_for(i));
                        self.key_data[i] = KeyState { repeat_time: 0, ..s };
                    } else {
                        let bumped = if s.repeat_time <= u64::MAX - time_delta {
                            s.repeat_time + time_delta
                        } else {
                            u64::MAX
                        };
                        self.key_data[i] = KeyState { repeat_time: bumped, ..s };
                    }
                } else {
                    let bumped = if s.total_time <= u64::MAX - time_delta {
                        s.total_time + time_delta
                    } else {
                        u64::MAX
                    };
                    self.key_data[i] = KeyState { total_time: bumped, ..s };
                }
            } else if down && !s.active {
                events.push(Self::event_for(i));
                self.key_data[i] = KeyState { active: true, ..s };
            } else if !down && s.active {
                self.key_data[i] = KeyState {
                    active: false,
                    total_time: 0,
                    repeat_time: 1 + KEY_REPEAT_TIME_MS,
                };
            }
            i = i + 1;
        }
        events
    }

    /// The event an input index stands for.
    fn event_for(index: usize) -> (r: KeyEvent)
        requires
            index < INPUT_COUNT,
        ensures
            r == event_of_index(index as int),
    {
        if index == 0 {
            KeyEvent::Left
        } else if index == 1 {
            KeyEvent::Right
        } else if index == 2 {
            KeyEvent::RotateClockwise
        } else if index == 3 {
            KeyEvent::Descend
        } else {
            KeyEvent::Drop
        }
    }
}

} // verus!
