//! Maps grid coordinates to on-screen pixel positions and marks blocks as
//! set up once the render layer has seen them.

use vstd::prelude::*;
use crate::components::{Block, LayoutConfig};

verus! {

/// The pixel position of a grid coordinate: the field corner plus half the
/// doubled coordinate (shifted by one raw unit to the cell's center) in
/// tiles.
pub open spec fn screen_xy_spec(layout: LayoutConfig, x: int, y: int) -> (int, int) {
    (
        layout.stack_x + layout.tile_size * (x + 1) / 2,
        layout.stack_y + layout.tile_size * (y + 1) / 2,
    )
}

/// Pixel position of one grid coordinate under the given screen layout.
pub fn xy_from_coordinates(layout: &LayoutConfig, x: i32, y: i32) -> (r: (i32, i32))
    requires
        0 <= layout.tile_size <= 0x1000,
        -0x1000_0000 <= layout.stack_x <= 0x1000_0000,
        -0x1000_0000 <= layout.stack_y <= 0x1000_0000,
        -1 <= x <= 0x1_0000,
        -1 <= y <= 0x1_0000,
    ensures
        (r.0 as int, r.1 as int) == screen_xy_spec(*layout, x as int, y as int),
{
    proof {
        assert(0 <= (layout.tile_size as int) * ((x as int) + 1) <= 0x1000_1000)
            by (nonlinear_arith)
            requires
                0 <= layout.tile_size as int <= 0x1000,
                0 <= (x as int) + 1 <= 0x1_0001,
        ;
        assert(0 <= (layout.tile_size as int) * ((y as int) + 1) <= 0x1000_1000)
            by (nonlinear_arith)
            requires
                0 <= layout.tile_size as int <= 0x1000,
                0 <= (y as int) + 1 <= 0x1_0001,
        ;
    }
    let tx = layout.tile_size * (x + 1);
    let ty = layout.tile_size * (y + 1);
    (layout.stack_x + tx / 2, layout.stack_y + ty / 2)
}

/// Marks blocks as set up and reports where each belongs on screen.
pub struct PositionUpdateSystem;

impl PositionUpdateSystem {
    /// One tick: every block is marked as set up on screen, and the pixel
    /// position of each block, in field order, is handed back for the
    /// render layer to apply.
    pub fn run(&self, blocks: &mut Vec<Block>, layout: &LayoutConfig) -> (positions: Vec<(i32, i32)>)
        requires
            0 <= layout.tile_size <= 0x1000,
            -0x1000_0000 <= layout.stack_x <= 0x1000_0000,
            -0x1000_0000 <= layout.stack_y <= 0x1000_0000,
            forall|i: int|
                0 <= i < old(blocks)@.len() ==> -1 <= (#[trigger] old(blocks)@[i]).x <= 0x1_0000
                    && -1 <= old(blocks)@[i].y <= 0x1_0000,
        ensures
            final(blocks)@.len() == old(blocks)@.len(),
            forall|i: int|
                0 <= i < old(blocks)@.len() ==> final(blocks)@[i] == (Block {
                    initialized: true,
                    ..old(blocks)@[i]
                }),
            positions@.len() == old(blocks)@.len(),
            forall|i: int|
                0 <= i < old(blocks)@.len() ==> ((#[trigger] positions@[i]).0 as int,
                positions@[i].1 as int) == screen_xy_spec(
                    *layout,
                    old(blocks)@[i].x as int,
                    old(blocks)@[i].y as int,
                ),
    {
        let ghost pre = blocks@;
        let mut positions: Vec<(i32, i32)> = Vec::new();
        let mut i: usize = 0;
        while i < blocks.len()
            invariant
                0 <= i <= pre.len(),
                blocks@.len() == pre.len(),
                0 <= layout.tile_size <= 0x1000,
                -0x1000_0000 <= layout.stack_x <= 0x1000_0000,
                -0x1000_0000 <= layout.stack_y <= 0x1000_0000,
                forall|j: int|
                    0 <= j < pre.len() ==> -1 <= (#[trigger] pre[j]).x <= 0x1_0000 && -1
                        <= pre[j].y <= 0x1_0000,
                forall|j: int|
                    0 <= j < i ==> blocks@[j] == (Block { initialized: true, ..pre[j] }),
                forall|j: int| i <= j < pre.len() ==> blocks@[j] == pre[j],
                positions@.len() == i,
                forall|j: int|
                    0 <= j < i ==> ((#[trigger] positions@[j]).0 as int, positions@[j].1 as int)
                        == screen_xy_spec(*layout, pre[j].x as int, pre[j].y as int),
            decreases pre.len() - i,
        {
            let b = blocks[i];
            let xy = xy_from_coordinates(layout, b.x, b.y);
            positions.push(xy);
            blocks[i] = Block { initialized: true, ..b };
            i = i + 1;
        }
        positions
    }
}

} // verus!
