//! Piece shapes, their spawn layouts, and the spawn controller that places a
//! new piece on the field once the respawn timer fires.

use vstd::prelude::*;
use crate::components::{spawn_due, Block, RandomStream, RotationCenter, SpawnTimer};
use crate::constants::{SPAWN_X, SPAWN_Y};

verus! {

/// The seven tetromino shapes.
#[derive(Clone, Copy, PartialEq, Eq, Structural, Debug)]
pub enum Tetrominos {
    I,
    J,
    L,
    O,
    S,
    T,
    Z,
}

impl Tetrominos {
    /// The shape a queue number in `0 ..= 6` stands for.
    pub open spec fn from_num_spec(num: u8) -> Tetrominos {
        if num == 0 {
            Tetrominos::I
        } else if num == 1 {
            Tetrominos::J
        } else if num == 2 {
            Tetrominos::L
        } else if num == 3 {
            Tetrominos::O
        } else if num == 4 {
            Tetrominos::S
        } else if num == 5 {
            Tetrominos::T
        } else {
            Tetrominos::Z
        }
    }

    /// Turns a queue number into its shape. Numbers outside `0 ..= 6` do not
    /// stand for any shape: the shape-to-layout and kick-table mappings are
    /// exhaustive over exactly these seven values.
    pub fn num_to_tetromino(num: u8) -> (r: Tetrominos)
        requires
            num < 7,
        ensures
            r == Tetrominos::from_num_spec(num),
    {
        if num == 0 {
            Tetrominos::I
        } else if num == 1 {
            Tetrominos::J
        } else if num == 2 {
            Tetrominos::L
        } else if num == 3 {
            Tetrominos::O
        } else if num == 4 {
            Tetrominos::S
        } else if num == 5 {
            Tetrominos::T
        } else {
            Tetrominos::Z
        }
    }
}

/// The four cell offsets of a shape, in logical (un-doubled) units relative
/// to the spawn point.
pub open spec fn layout_spec(piece: Tetrominos) -> Seq<(i32, i32)> {
    match piece {
        Tetrominos::I => seq![(-1i32, 0i32), (0i32, 0i32), (1i32, 0i32), (2i32, 0i32)],
        Tetrominos::J => seq![(-1i32, 1i32), (-1i32, 0i32), (0i32, 0i32), (1i32, 0i32)],
        Tetrominos::L => seq![(-1i32, 0i32), (0i32, 0i32), (1i32, 0i32), (1i32, 1i32)],
        Tetrominos::O => seq![(0i32, 0i32), (0i32, 1i32), (1i32, 0i32), (1i32, 1i32)],
        Tetrominos::S => seq![(-1i32, 0i32), (0i32, 0i32), (0i32, 1i32), (1i32, 1i32)],
        Tetrominos::T => seq![(-1i32, 0i32), (0i32, 1i32), (0i32, 0i32), (1i32, 0i32)],
        Tetrominos::Z => seq![(-1i32, 1i32), (0i32, 1i32), (0i32, 0i32), (1i32, 0i32)],
    }
}

/// Positions of a shape's four blocks relative to the spawn point.
pub fn get_layout(piece: Tetrominos) -> (r: Vec<(i32, i32)>)
    ensures
        r@ == layout_spec(piece),
{
    let mut v: Vec<(i32, i32)> = Vec::new();
    match piece {
        Tetrominos::I => {
            v.push((-1, 0));
            v.push((0, 0));
            v.push((1, 0));
            v.push((2, 0));
        },
        Tetrominos::J => {
            v.push((-1, 1));
            v.push((-1, 0));
            v.push((0, 0));
            v.push((1, 0));
        },
        Tetrominos::L => {
            v.push((-1, 0));
            v.push((0, 0));
            v.push((1, 0));
            v.push((1, 1));
        },
        Tetrominos::O => {
            v.push((0, 0));
            v.push((0, 1));
            v.push((1, 0));
            v.push((1, 1));
        },
        Tetrominos::S => {
            v.push((-1, 0));
            v.push((0, 0));
            v.push((0, 1));
            v.push((1, 1));
        },
        Tetrominos::T => {
            v.push((-1, 0));
            v.push((0, 1));
            v.push((0, 0));
            v.push((1, 0));
        },
        Tetrominos::Z => {
            v.push((-1, 1));
            v.push((0, 1));
            v.push((0, 0));
            v.push((1, 0));
        },
    }
    assert(v@ =~= layout_spec(piece));
    v
}

/// The pivot offset of a shape relative to the spawn point, in raw units.
pub open spec fn rotation_center_spec(piece: Tetrominos) -> (i32, i32) {
    match piece {
        Tetrominos::I => (1i32, -1i32),
        Tetrominos::O => (1i32, 1i32),
        _ => (0i32, 0i32),
    }
}

/// Where a shape's rotation center sits relative to the spawn point.
pub fn get_rotation_center(piece: Tetrominos) -> (r: (i32, i32))
    ensures
        r == rotation_center_spec(piece),
{
    match piece {
        Tetrominos::I => (1, -1),
        Tetrominos::O => (1, 1),
        _ => (0, 0),
    }
}

/// Every layout offset is within one cell left and two right of the spawn
/// point, and on its row or the one above.
pub proof fn lemma_layout_bounds(piece: Tetrominos, k: int)
    requires
        0 <= k < 4,
    ensures
        -1 <= layout_spec(piece)[k].0 <= 2,
        0 <= layout_spec(piece)[k].1 <= 1,
{
}

/// The `k`-th block of a freshly spawned piece: the shape's layout offset,
/// scaled to raw units, placed at the spawn point; falling, not yet set up
/// on screen, and in rotation state 0.
pub open spec fn spawned_block(piece: Tetrominos, k: int) -> Block {
    Block {
        x: (layout_spec(piece)[k].0 * 2 + SPAWN_X) as i32,
        y: (layout_spec(piece)[k].1 * 2 + SPAWN_Y) as i32,
        falling: true,
        initialized: false,
        piece: piece,
        rotation: 0,
    }
}

/// The four blocks a freshly spawned piece adds to the field.
pub open spec fn spawn_blocks_spec(piece: Tetrominos) -> Seq<Block> {
    Seq::new(4, |k: int| spawned_block(piece, k))
}

/// Places a new piece when the respawn timer fires.
pub struct SpawnSystem;

impl SpawnSystem {
    /// One spawn tick. Does nothing until the respawn timer fires. When it
    /// fires, the next shape is drawn from the randomizer, the pivot is set
    /// to the spawn point plus the shape's center offset, four falling
    /// blocks are added at the shape's layout cells, and the timer is
    /// consumed and disarmed.
    pub fn run(
        &self,
        blocks: &mut Vec<Block>,
        spawn_timer: &mut SpawnTimer,
        random_stream: &mut RandomStream,
        rotation_center: &mut RotationCenter,
    )
        requires
            old(random_stream).wf(),
        ensures
            !spawn_due(*old(spawn_timer)) ==> {
                &&& final(blocks)@ == old(blocks)@
                &&& *final(spawn_timer) == *old(spawn_timer)
                &&& *final(random_stream) == *old(random_stream)
                &&& *final(rotation_center) == *old(rotation_center)
            },
            spawn_due(*old(spawn_timer)) ==> {
                let piece = Tetrominos::from_num_spec(old(random_stream).next_nums@[0]);
                &&& final(blocks)@ == old(blocks)@ + spawn_blocks_spec(piece)
                &&& final(rotation_center).x == SPAWN_X + rotation_center_spec(piece).0
                &&& final(rotation_center).y == SPAWN_Y + rotation_center_spec(piece).1
                &&& final(spawn_timer).time_since_clear == 0
                &&& !final(spawn_timer).active
                &&& final(spawn_timer).spawn_threshold == old(spawn_timer).spawn_threshold
                &&& final(random_stream).wf()
                &&& forall|i: int|
                    0 <= i < 3 ==> final(random_stream).next_nums@[i] == old(
                        random_stream,
                    ).next_nums@[i + 1]
            },
            crate::gravity::falling_on_grid(old(blocks)@) ==> crate::gravity::falling_on_grid(
                final(blocks)@,
            ),
    {
        if !spawn_timer.should_spawn() {
            return ;
        }
        let next_piece = random_stream.advance();

        let center_offset = get_rotation_center(next_piece);
        rotation_center.x = SPAWN_X + center_offset.0;
        rotation_center.y = SPAWN_Y + center_offset.1;

        let ghost pre = blocks@;
        let layout = get_layout(next_piece);
        let mut k: usize = 0;
        while k < 4
            invariant
                0 <= k <= 4,
                layout@ == layout_spec(next_piece),
                blocks@.len() == pre.len() + k,
                forall|j: int| 0 <= j < pre.len() ==> blocks@[j] == pre[j],
                forall|j: int|
                    0 <= j < k ==> blocks@[pre.len() + j] == spawned_block(next_piece, j),
            decreases 4 - k,
        {
            let (x_off, y_off) = layout[k];
            proof {
                lemma_layout_bounds(next_piece, k as int);
            }
            blocks.push(
                Block {
                    x: x_off * 2 + SPAWN_X,
                    y: y_off * 2 + SPAWN_Y,
                    falling: true,
                    initialized: false,
                    piece: next_piece,
                    rotation: 0,
                },
            );
            k = k + 1;
        }
        assert(blocks@ =~= pre + spawn_blocks_spec(next_piece));
        assert forall|j: int|
            0 <= j < blocks@.len() && (#[trigger] blocks@[j]).falling
                && crate::gravity::falling_on_grid(pre) implies blocks@[j].x % 2 == 0
            && blocks@[j].y % 2 == 0 && blocks@[j].y >= 0 by {
            if j >= pre.len() {
                lemma_layout_bounds(next_piece, j - pre.len());
            }
        }

        spawn_timer.reset();
    }
}

} // verus!
