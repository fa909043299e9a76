//! The collision engine: decides whether a candidate set of cells is legal,
//! that is, inside the side walls and free of settled blocks.
//!
//! Gravity, translation and rotation all consult this check before they
//! commit a movement; no controller mutates the field without it.

use vstd::prelude::*;
use crate::components::Block;
use crate::constants::ARENA_WIDTH;

verus! {

/// A cell's x lies inside the side walls of the play field.
pub open spec fn cell_in_bounds(x: int) -> bool {
    0 <= x && x <= ARENA_WIDTH - 2
}

/// Some settled block occupies the cell `(x, y)`.
pub open spec fn occupied_by_settled(blocks: Seq<Block>, x: int, y: int) -> bool {
    exists|i: int|
        0 <= i < blocks.len() && !(#[trigger] blocks[i]).falling && blocks[i].x == x
            && blocks[i].y == y
}

/// Every candidate cell is inside the side walls and free of settled blocks.
pub open spec fn cells_legal(cells: Seq<(i32, i32)>, blocks: Seq<Block>) -> bool {
    forall|i: int|
        0 <= i < cells.len() ==> cell_in_bounds((#[trigger] cells[i]).0 as int)
            && !occupied_by_settled(blocks, cells[i].0 as int, cells[i].1 as int)
}

/// Whether some settled block occupies the cell `(x, y)`.
pub fn settled_at(blocks: &Vec<Block>, x: i32, y: i32) -> (r: bool)
    ensures
        r == occupied_by_settled(blocks@, x as int, y as int),
{
    let mut i: usize = 0;
    while i < blocks.len()
        invariant
            0 <= i <= blocks@.len(),
            forall|j: int|
                0 <= j < i ==> !(!(#[trigger] blocks@[j]).falling && blocks@[j].x == x
                    && blocks@[j].y == y),
        decreases blocks@.len() - i,
    {
        let b = blocks[i];
        if !b.falling && b.x == x && b.y == y {
            return true;
        }
        i = i + 1;
    }
    false
}

/// Whether every candidate cell is legal: inside the side walls and not on a
/// settled block. The verdict is a function of the two arguments alone and
/// neither argument is changed.
pub fn is_legal(cells: &Vec<(i32, i32)>, blocks: &Vec<Block>) -> (r: bool)
    ensures
        r == cells_legal(cells@, blocks@),
{
    let mut i: usize = 0;
    while i < cells.len()
        invariant
            0 <= i <= cells@.len(),
            forall|j: int|
                0 <= j < i ==> cell_in_bounds((#[trigger] cells@[j]).0 as int)
                    && !occupied_by_settled(blocks@, cells@[j].0 as int, cells@[j].1 as int),
        decreases cells@.len() - i,
    {
        let (x, y) = cells[i];
        if x < 0 || x > ARENA_WIDTH - 2 {
            return false;
        }
        if settled_at(blocks, x, y) {
            return false;
        }
        i = i + 1;
    }
    true
}

/// The collision verdict is deterministic: equal candidate cells and equal
/// settled stacks always give equal verdicts, and the check itself takes
/// both inputs by shared reference, so it can change neither.
pub proof fn lemma_collision_deterministic(
    cells1: Seq<(i32, i32)>,
    blocks1: Seq<Block>,
    cells2: Seq<(i32, i32)>,
    blocks2: Seq<Block>,
)
    requires
        cells1 == cells2,
        blocks1 == blocks2,
    ensures
        cells_legal(cells1, blocks1) == cells_legal(cells2, blocks2),
{
}

} // verus!
