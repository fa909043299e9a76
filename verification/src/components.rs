//! The data the engine works on: blocks, the rotation center, the two game
//! timers and the piece-supply randomizer.
//!
//! Elapsed time is carried as whole milliseconds.

use vstd::prelude::*;
use rand::Rng;
use crate::spawn::Tetrominos;

verus! {

/// `a + b`, stopping at the top of the `u64` range instead of wrapping.
pub open spec fn sat_add(a: u64, b: u64) -> u64 {
    if a + b <= u64::MAX {
        (a + b) as u64
    } else {
        u64::MAX
    }
}

/// One occupied cell of the play field, in raw (doubled-unit) coordinates.
///
/// A block belongs either to the falling piece (`falling`) or to the settled
/// stack. It remembers the shape it came from and that piece's rotation-state
/// index (`0 ..= 3`, clockwise quadrants from the spawn orientation), which
/// select the wall-kick table during rotation. `initialized` marks whether
/// the render layer has set the block up on screen.
#[derive(Clone, Copy, PartialEq, Eq, Structural, Debug)]
pub struct Block {
    pub x: i32,
    pub y: i32,
    pub falling: bool,
    pub initialized: bool,
    pub piece: Tetrominos,
    pub rotation: u8,
}

/// The shared rotation axis of the four blocks of the active piece.
#[derive(Clone, Copy, PartialEq, Eq, Structural, Debug)]
pub struct RotationCenter {
    pub x: i32,
    pub y: i32,
}

impl Default for RotationCenter {
    fn default() -> (r: Self)
        ensures
            r.x == 0 && r.y == 0,
    {
        RotationCenter { x: 0, y: 0 }
    }
}

/// Counts the time since the last piece locked, so the spawn controller
/// knows when to place the next piece.
///
/// Armed by the gravity controller when a piece locks, consumed and disarmed
/// by the spawn controller when it fires. While inactive, added time is
/// discarded, so idle time between pieces cannot accumulate toward the next
/// spawn.
#[derive(Clone, Copy, PartialEq, Eq, Structural, Debug)]
pub struct SpawnTimer {
    pub time_since_clear: u64,
    pub spawn_threshold: u64,
    pub active: bool,
}

/// Whether the spawn timer asks for a new piece: it is armed and its
/// accumulated time has passed the threshold.
pub open spec fn spawn_due(t: SpawnTimer) -> bool {
    t.time_since_clear > t.spawn_threshold && t.active
}

impl SpawnTimer {
    /// Accumulates elapsed time while the timer is armed.
    pub fn add_time(&mut self, time: u64)
        ensures
            final(self).active == old(self).active,
            final(self).spawn_threshold == old(self).spawn_threshold,
            final(self).time_since_clear == if old(self).active {
                sat_add(old(self).time_since_clear, time)
            } else {
                old(self).time_since_clear
            },
    {
        if self.active {
            if self.time_since_clear <= u64::MAX - time {
                self.time_since_clear = self.time_since_clear + time;
            } else {
                self.time_since_clear = u64::MAX;
            }
        }
    }

    /// Whether a new piece is due.
    pub fn should_spawn(&self) -> (r: bool)
        ensures
            r == spawn_due(*self),
    {
        self.time_since_clear > self.spawn_threshold && self.active
    }

    /// Consumes a firing: clears the accumulated time and disarms the timer.
    pub fn reset(&mut self)
        ensures
            final(self).time_since_clear == 0,
            !final(self).active,
            final(self).spawn_threshold == old(self).spawn_threshold,
    {
        self.time_since_clear = 0;
        self.active = false;
    }

    /// Arms the timer; done when a piece locks.
    pub fn activate(&mut self)
        ensures
            final(self).active,
            final(self).time_since_clear == old(self).time_since_clear,
            final(self).spawn_threshold == old(self).spawn_threshold,
    {
        self.active = true;
    }
}

impl Default for SpawnTimer {
    /// The default timer is armed and already past its threshold, so the
    /// first piece spawns at once.
    fn default() -> (r: Self)
        ensures
            r.time_since_clear == 2000,
            r.spawn_threshold == 1000,
            r.active,
    {
        Self { time_since_clear: 2000, spawn_threshold: 1000, active: true }
    }
}

/// Counts the time since gravity last moved the piece; gravity acts once the
/// accumulated time passes the threshold, and resets the count.
#[derive(Clone, Copy, PartialEq, Eq, Structural, Debug)]
pub struct GravityTimer {
    pub timer: u64,
    pub threshold: u64,
}

/// Whether the gravity timer asks for a descent step.
pub open spec fn gravity_due(t: GravityTimer) -> bool {
    t.timer > t.threshold
}

impl GravityTimer {
    /// Accumulates elapsed time.
    pub fn add_time(&mut self, time: u64)
        ensures
            final(self).timer == sat_add(old(self).timer, time),
            final(self).threshold == old(self).threshold,
    {
        if self.timer <= u64::MAX - time {
            self.timer = self.timer + time;
        } else {
            self.timer = u64::MAX;
        }
    }

    /// Whether a descent step is due.
    pub fn should_apply_gravity(&self) -> (r: bool)
        ensures
            r == gravity_due(*self),
    {
        self.timer > self.threshold
    }

    /// Clears the accumulated time; done every time gravity fires.
    pub fn reset(&mut self)
        ensures
            final(self).timer == 0,
            final(self).threshold == old(self).threshold,
    {
        self.timer = 0;
    }

    /// Changes how long gravity waits between descent steps.
    pub fn set_threshold(&mut self, time: u64)
        ensures
            final(self).threshold == time,
            final(self).timer == old(self).timer,
    {
        self.threshold = time;
    }
}

impl Default for GravityTimer {
    fn default() -> (r: Self)
        ensures
            r.timer == 0,
            r.threshold == 500,
    {
        Self { timer: 0, threshold: 500 }
    }
}

/// The upcoming piece shapes, as a queue of four numbers in `0 ..= 6`.
///
/// Each draw returns the head, shifts the queue and appends one fresh
/// number, constrained to differ from the number just before it: no two
/// adjacent draws are ever equal (a weak anti-repeat rule, not a bag
/// shuffle).
pub struct RandomStream {
    /// The queued shape numbers, head first.
    pub next_nums: Vec<u8>,
    /// One past the largest shape number a draw can produce; always 7.
    pub high: u8,
}

impl RandomStream {
    /// A well-formed queue: four upcoming numbers, each naming one of the
    /// seven shapes, no two adjacent ones equal.
    pub open spec fn wf(&self) -> bool {
        &&& self.high == 7
        &&& self.next_nums@.len() == 4
        &&& forall|i: int| 0 <= i < 4 ==> self.next_nums@[i] < 7
        &&& forall|i: int| 0 <= i < 3 ==> #[trigger] self.next_nums@[i] != self.next_nums@[i + 1]
    }

    /// Returns the shape at the head of the queue, shifts the queue left and
    /// appends a fresh draw that differs from the one before it.
    pub fn advance(&mut self) -> (r: Tetrominos)
        requires
            old(self).wf(),
        ensures
            final(self).wf(),
            r == Tetrominos::from_num_spec(old(self).next_nums@[0]),
            forall|i: int| 0 <= i < 3 ==> final(self).next_nums@[i] == old(self).next_nums@[i + 1],
            final(self).next_nums@[3] != final(self).next_nums@[2],
    {
        let current = self.next_nums[0];

        let n1 = self.next_nums[1];
        let n2 = self.next_nums[2];
        let n3 = self.next_nums[3];
        self.next_nums[0] = n1;
        self.next_nums[1] = n2;
        self.next_nums[2] = n3;

        let fresh = draw_shape_except(n3);
        self.next_nums[3] = fresh;

        Tetrominos::num_to_tetromino(current)
    }
}

impl Default for RandomStream {
    /// A queue of four freshly drawn shape numbers, no two adjacent equal.
    fn default() -> (r: Self)
        ensures
            r.wf(),
    {
        let first = draw_shape(7);
        let mut nums: Vec<u8> = Vec::new();
        nums.push(first);
        let mut i: usize = 1;
        while i < 4
            invariant
                1 <= i <= 4,
                nums@.len() == i,
                forall|j: int| 0 <= j < i ==> nums@[j] < 7,
                forall|j: int| 0 <= j < i - 1 ==> #[trigger] nums@[j] != nums@[j + 1],
            decreases 4 - i,
        {
            let prev = nums[i - 1];
            let next = draw_shape_except(prev);
            nums.push(next);
            i = i + 1;
        }
        Self { next_nums: nums, high: 7 }
    }
}

/// Relies on `rand::Rng::gen_range` on the thread-local generator: the drawn
/// value lies in the half-open range `0 .. high` (the range must not be
/// empty, or the call panics).
#[verifier::external_body]
fn draw_shape(high: u8) -> (r: u8)
    requires
        0 < high,
    ensures
        r < high,
{
    rand::thread_rng().gen_range(0..high)
}

/// A fresh shape number in `0 ..= 6` that differs from `banned`: one of the
/// six other numbers is drawn uniformly and mapped past the banned one.
fn draw_shape_except(banned: u8) -> (r: u8)
    requires
        banned < 7,
    ensures
        r < 7,
        r != banned,
{
    let n = draw_shape(6);
    if n >= banned {
        n + 1
    } else {
        n
    }
}

/// Two successive draws of the randomizer never yield the same shape: in a
/// well-formed queue the head and its successor carry different numbers, and
/// different numbers name different shapes.
pub proof fn lemma_successive_draws_differ(s: RandomStream)
    requires
        s.wf(),
    ensures
        Tetrominos::from_num_spec(s.next_nums@[0]) != Tetrominos::from_num_spec(s.next_nums@[1]),
{
    assert(s.next_nums@[0] != s.next_nums@[1]);
}

/// Where on screen the play field sits and how large a tile is drawn:
/// `tile_size` is the pixel size of one block, `stack_x` / `stack_y` the
/// position of the field's lower-left corner in the window.
#[derive(Clone, Copy, PartialEq, Eq, Structural, Debug)]
pub struct LayoutConfig {
    pub tile_size: i32,
    pub stack_x: i32,
    pub stack_y: i32,
}

impl Default for LayoutConfig {
    fn default() -> (r: Self)
        ensures
            r.tile_size == 32 && r.stack_x == 0 && r.stack_y == 0,
    {
        LayoutConfig { tile_size: 32, stack_x: 0, stack_y: 0 }
    }
}

} // verus!
