//! Gravity and locking: once the gravity timer fires, the falling piece
//! either drops one row or, if the bottom or the settled stack is directly
//! beneath any of its blocks, locks in place and arms the respawn timer.

use vstd::prelude::*;
use crate::collision::occupied_by_settled;
use crate::components::{gravity_due, Block, GravityTimer, RotationCenter, SpawnTimer};

verus! {

/// The doubled-unit data-model invariant on the falling piece: every falling
/// block's coordinates are even, and it sits at or above the bottom row.
pub open spec fn falling_on_grid(blocks: Seq<Block>) -> bool {
    forall|i: int|
        0 <= i < blocks.len() && (#[trigger] blocks[i]).falling ==> blocks[i].x % 2 == 0
            && blocks[i].y % 2 == 0 && blocks[i].y >= 0
}

/// Descent is disallowed: some falling block already rests on the bottom row
/// or sits directly above a settled block. The decision reads only pre-move
/// positions, so it is atomic across the whole piece.
pub open spec fn gravity_blocked(blocks: Seq<Block>) -> bool {
    exists|i: int|
        0 <= i < blocks.len() && (#[trigger] blocks[i]).falling && (blocks[i].y == 0
            || occupied_by_settled(blocks, blocks[i].x as int, blocks[i].y - 2))
}

/// The field after one descent step: every falling block one row (2 raw
/// units) lower, settled blocks untouched.
pub open spec fn blocks_dropped(blocks: Seq<Block>) -> Seq<Block> {
    Seq::new(
        blocks.len(),
        |i: int|
            if blocks[i].falling {
                Block { y: (blocks[i].y - 2) as i32, ..blocks[i] }
            } else {
                blocks[i]
            },
    )
}

/// The field after a lock: every block's falling flag cleared, coordinates
/// untouched.
pub open spec fn blocks_locked(blocks: Seq<Block>) -> Seq<Block> {
    Seq::new(blocks.len(), |i: int| Block { falling: false, ..blocks[i] })
}

/// Applies gravity and locking for one tick.
pub struct GravitySystem;

impl GravitySystem {
    /// One gravity tick. Does nothing until the gravity timer fires. When it
    /// fires, the timer is reset and the whole piece either drops one row
    /// (pivot included) or locks in place, arming the respawn timer.
    pub fn run(
        &self,
        blocks: &mut Vec<Block>,
        gravity_timer: &mut GravityTimer,
        spawn_timer: &mut SpawnTimer,
        rotation_center: &mut RotationCenter,
    )
        requires
            falling_on_grid(old(blocks)@),
            old(rotation_center).y >= i32::MIN + 2,
        ensures
            final(gravity_timer).threshold == old(gravity_timer).threshold,
            !gravity_due(*old(gravity_timer)) ==> {
                &&& final(blocks)@ == old(blocks)@
                &&& *final(gravity_timer) == *old(gravity_timer)
                &&& *final(spawn_timer) == *old(spawn_timer)
                &&& *final(rotation_center) == *old(rotation_center)
            },
            gravity_due(*old(gravity_timer)) ==> final(gravity_timer).timer == 0,
            gravity_due(*old(gravity_timer)) && gravity_blocked(old(blocks)@) ==> {
                &&& final(blocks)@ == blocks_locked(old(blocks)@)
                &&& final(spawn_timer).active
                &&& final(spawn_timer).time_since_clear == old(spawn_timer).time_since_clear
                &&& final(spawn_timer).spawn_threshold == old(spawn_timer).spawn_threshold
                &&& *final(rotation_center) == *old(rotation_center)
            },
            gravity_due(*old(gravity_timer)) && !gravity_blocked(old(blocks)@) ==> {
                &&& final(blocks)@ == blocks_dropped(old(blocks)@)
                &&& *final(spawn_timer) == *old(spawn_timer)
                &&& final(rotation_center).x == old(rotation_center).x
                &&& final(rotation_center).y == old(rotation_center).y - 2
            },
            falling_on_grid(final(blocks)@),
    {
        if !gravity_timer.should_apply_gravity() {
            return ;
        }
        gravity_timer.reset();

        let allow_gravity = !Self::descent_blocked(blocks);

        if allow_gravity {
            let ghost pre = blocks@;
            let mut i: usize = 0;
            while i < blocks.len()
                invariant
                    0 <= i <= pre.len(),
                    blocks@.len() == pre.len(),
                    falling_on_grid(pre),
                    forall|j: int| 0 <= j < i ==> blocks@[j] == blocks_dropped(pre)[j],
                    forall|j: int| i <= j < pre.len() ==> blocks@[j] == pre[j],
                decreases pre.len() - i,
            {
                let b = blocks[i];
                if b.falling {
                    assert(pre[i as int].falling && pre[i as int].y >= 0);
                    blocks[i] = Block { y: b.y - 2, ..b };
                }
                i = i + 1;
            }
            assert(blocks@ =~= blocks_dropped(pre));
            rotation_center.y = rotation_center.y - 2;
        } else {
            let ghost pre = blocks@;
            let mut i: usize = 0;
            while i < blocks.len()
                invariant
                    0 <= i <= pre.len(),
                    blocks@.len() == pre.len(),
                    forall|j: int| 0 <= j < i ==> blocks@[j] == blocks_locked(pre)[j],
                    forall|j: int| i <= j < pre.len() ==> blocks@[j] == pre[j],
                decreases pre.len() - i,
            {
                let b = blocks[i];
                blocks[i] = Block { falling: false, ..b };
                i = i + 1;
            }
            assert(blocks@ =~= blocks_locked(pre));
            spawn_timer.activate();
        }
    }

    /// Scans the pre-move positions of the whole piece: is any falling block
    /// on the bottom row, or directly above a settled block?
    fn descent_blocked(blocks: &Vec<Block>) -> (r: bool)
        requires
            falling_on_grid(blocks@),
        ensures
            r == gravity_blocked(blocks@),
    {
        let mut i: usize = 0;
        while i < blocks.len()
            invariant
                0 <= i <= blocks@.len(),
                falling_on_grid(blocks@),
                forall|j: int|
                    0 <= j < i ==> !((#[trigger] blocks@[j]).falling && (blocks@[j].y == 0
                        || occupied_by_settled(blocks@, blocks@[j].x as int, blocks@[j].y - 2))),
            decreases blocks@.len() - i,
        {
            let b = blocks[i];
            if b.falling {
                if b.y == 0 {
                    return true;
                }
                if crate::collision::settled_at(blocks, b.x, b.y - 2) {
                    return true;
                }
            }
            i = i + 1;
        }
        false
    }
}

/// A committed descent step is safe: no falling block ends below the bottom
/// row, and none ends on a cell the settled stack occupies.
pub proof fn lemma_gravity_safe(blocks: Seq<Block>)
    requires
        falling_on_grid(blocks),
        !gravity_blocked(blocks),
    ensures
        forall|i: int|
            0 <= i < blocks.len() && (#[trigger] blocks[i]).falling ==> blocks_dropped(
                blocks,
            )[i].y >= 0 && !occupied_by_settled(
                blocks_dropped(blocks),
                blocks_dropped(blocks)[i].x as int,
                blocks_dropped(blocks)[i].y as int,
            ),
{
    let dropped = blocks_dropped(blocks);
    assert forall|i: int|
        0 <= i < blocks.len() && (#[trigger] blocks[i]).falling implies dropped[i].y >= 0
        && !occupied_by_settled(dropped, dropped[i].x as int, dropped[i].y as int) by {
        assert(blocks[i].y % 2 == 0 && blocks[i].y >= 0);
        assert(blocks[i].y != 0);
        assert(blocks[i].y >= 2);
        assert(dropped[i].y == blocks[i].y - 2);
        assert(!occupied_by_settled(blocks, blocks[i].x as int, blocks[i].y - 2));
        if occupied_by_settled(dropped, dropped[i].x as int, dropped[i].y as int) {
            let w = choose|w: int|
                0 <= w < dropped.len() && !(#[trigger] dropped[w]).falling && dropped[w].x
                    == dropped[i].x && dropped[w].y == dropped[i].y;
            assert(!blocks[w].falling);
            assert(dropped[w] == blocks[w]);
            assert(occupied_by_settled(blocks, blocks[i].x as int, blocks[i].y - 2));
        }
    }
}

} // verus!
