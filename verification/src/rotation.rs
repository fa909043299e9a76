//! Rotation with wall kicks: a rotate event turns every falling block a
//! quarter turn around the pivot, then tries five kick offsets in priority
//! order; the first offset under which every turned cell is legal is
//! committed, together with the piece's rotation-state index. If none is
//! legal the event has no effect.
//!
//! The kick lookup is a pure function of (shape family, rotation state
//! `0 ..= 3`, direction), with all eight transitions of each family written
//! out; the I piece has its own table, the O piece always turns in place.

use vstd::prelude::*;
use crate::collision::{cell_in_bounds, occupied_by_settled};
use crate::components::{Block, RotationCenter};
use crate::key_update::KeyEvent;
use crate::spawn::Tetrominos;

verus! {

/// The point `(px, py)` turned a quarter circle around `(rx, ry)`:
/// clockwise the relative vector `(dx, dy)` becomes `(dy, -dx)`,
/// counter-clockwise `(-dy, dx)`.
pub open spec fn rotated_cell(px: int, py: int, rx: int, ry: int, cw: bool) -> (int, int) {
    if cw {
        (py - ry + rx, rx - px + ry)
    } else {
        (ry - py + rx, px - rx + ry)
    }
}

/// Turns a point a quarter circle around the rotation point, clockwise or
/// counter-clockwise.
pub fn get_rotated(px: i32, py: i32, rx: i32, ry: i32, dir_clockwise: bool) -> (r: (i32, i32))
    requires
        -0x1000_0000 <= px <= 0x1000_0000,
        -0x1000_0000 <= py <= 0x1000_0000,
        -0x1000_0000 <= rx <= 0x1000_0000,
        -0x1000_0000 <= ry <= 0x1000_0000,
    ensures
        (r.0 as int, r.1 as int) == rotated_cell(px as int, py as int, rx as int, ry as int, dir_clockwise),
{
    let rel_x = px - rx;
    let rel_y = py - ry;
    if dir_clockwise {
        (rel_y + rx, -rel_x + ry)
    } else {
        (-rel_y + rx, rel_x + ry)
    }
}

/// The direction a rotate event asks for (`true` is clockwise); other
/// events are ignored here.
pub open spec fn rotation_dir(e: KeyEvent) -> Option<bool> {
    match e {
        KeyEvent::RotateClockwise => Some(true),
        KeyEvent::RotateCounterClockwise => Some(false),
        _ => None,
    }
}

/// The rotation-state index after one turn: one quadrant forward clockwise,
/// one back counter-clockwise, always staying in `0 ..= 3`.
pub open spec fn next_rotation_spec(r: u8, cw: bool) -> u8 {
    if cw {
        ((r + 1) % 4) as u8
    } else {
        ((r + 3) % 4) as u8
    }
}

/// The five kick offsets shared by the J, L, S, T and Z pieces, one row per
/// rotation transition.
pub open spec fn common_kick_table_spec(rotation: u8, cw: bool) -> Seq<(i32, i32)> {
    if cw {
        if rotation == 0 {
            seq![(0i32, 0i32), (-1i32, 0i32), (-1i32, 1i32), (0i32, -2i32), (-1i32, -2i32)]
        } else if rotation == 1 {
            seq![(0i32, 0i32), (1i32, 0i32), (1i32, -1i32), (0i32, 2i32), (1i32, 2i32)]
        } else if rotation == 2 {
            seq![(0i32, 0i32), (1i32, 0i32), (1i32, 1i32), (0i32, -2i32), (1i32, -2i32)]
        } else {
            seq![(0i32, 0i32), (1i32, 0i32), (1i32, 1i32), (0i32, -2i32), (1i32, -2i32)]
        }
    } else {
        if rotation == 0 {
            seq![(0i32, 0i32), (-1i32, 0i32), (-1i32, -1i32), (0i32, 2i32), (-1i32, 2i32)]
        } else if rotation == 1 {
            seq![(0i32, 0i32), (1i32, 0i32), (1i32, -1i32), (0i32, 2i32), (1i32, 2i32)]
        } else if rotation == 2 {
            seq![(0i32, 0i32), (-1i32, 0i32), (-1i32, 1i32), (0i32, -2i32), (-1i32, -2i32)]
        } else {
            seq![(0i32, 0i32), (-1i32, 0i32), (-1i32, -1i32), (0i32, 2i32), (-1i32, 2i32)]
        }
    }
}

/// The five kick offsets of the I piece, one row per rotation transition.
pub open spec fn i_kick_table_spec(rotation: u8, cw: bool) -> Seq<(i32, i32)> {
    if cw {
        if rotation == 0 {
            seq![(0i32, 0i32), (-2i32, 0i32), (1i32, 0i32), (-2i32, -1i32), (1i32, 2i32)]
        } else if rotation == 1 {
            seq![(0i32, 0i32), (-1i32, 0i32), (2i32, 0i32), (-1i32, 2i32), (2i32, -1i32)]
        } else if rotation == 2 {
            seq![(0i32, 0i32), (2i32, 0i32), (-1i32, 0i32), (2i32, 1i32), (-1i32, -2i32)]
        } else {
            seq![(0i32, 0i32), (-1i32, 0i32), (2i32, 0i32), (-1i32, 2i32), (2i32, -1i32)]
        }
    } else {
        if rotation == 0 {
            seq![(0i32, 0i32), (1i32, 0i32), (-2i32, 0i32), (1i32, -2i32), (-2i32, 1i32)]
        } else if rotation == 1 {
            seq![(0i32, 0i32), (2i32, 0i32), (-1i32, 0i32), (2i32, 1i32), (-1i32, -2i32)]
        } else if rotation == 2 {
            seq![(0i32, 0i32), (1i32, 0i32), (-2i32, 0i32), (1i32, -2i32), (-2i32, 1i32)]
        } else {
            seq![(0i32, 0i32), (-2i32, 0i32), (1i32, 0i32), (-2i32, -1i32), (1i32, 2i32)]
        }
    }
}

/// The ordered kick row for one piece, rotation state and direction. The O
/// piece turns onto its own cells, so it needs no kick and always uses a
/// zero offset.
pub open spec fn kick_table_spec(piece: Tetrominos, rotation: u8, cw: bool) -> Seq<(i32, i32)> {
    match piece {
        Tetrominos::O => seq![(0i32, 0i32), (0i32, 0i32), (0i32, 0i32), (0i32, 0i32), (0i32, 0i32)],
        Tetrominos::I => i_kick_table_spec(rotation, cw),
        _ => common_kick_table_spec(rotation, cw),
    }
}

/// The kick offset tried at priority `k`.
pub open spec fn kick_offset_spec(piece: Tetrominos, rotation: u8, cw: bool, k: int) -> (i32, i32) {
    kick_table_spec(piece, rotation, cw)[k]
}

/// Where one falling block ends up under a turn with the kick at priority
/// `k`: its rotated position plus the kick offset in raw (doubled) units.
pub open spec fn kicked_cell(b: Block, rc: RotationCenter, cw: bool, k: int) -> (int, int) {
    let r = rotated_cell(b.x as int, b.y as int, rc.x as int, rc.y as int, cw);
    let off = kick_offset_spec(b.piece, b.rotation, cw, k);
    (r.0 + 2 * off.0, r.1 + 2 * off.1)
}

/// Every falling block's cell under the kick at priority `k` is inside the
/// walls and off the settled stack.
pub open spec fn rotation_kick_legal(blocks: Seq<Block>, rc: RotationCenter, cw: bool, k: int) -> bool {
    forall|i: int|
        0 <= i < blocks.len() && (#[trigger] blocks[i]).falling ==> cell_in_bounds(
            kicked_cell(blocks[i], rc, cw, k).0,
        ) && !occupied_by_settled(
            blocks,
            kicked_cell(blocks[i], rc, cw, k).0,
            kicked_cell(blocks[i], rc, cw, k).1,
        )
}

/// The first of the five kick priorities whose cells are all legal, if any.
pub open spec fn chosen_kick(blocks: Seq<Block>, rc: RotationCenter, cw: bool) -> Option<int> {
    if rotation_kick_legal(blocks, rc, cw, 0) {
        Some(0int)
    } else if rotation_kick_legal(blocks, rc, cw, 1) {
        Some(1int)
    } else if rotation_kick_legal(blocks, rc, cw, 2) {
        Some(2int)
    } else if rotation_kick_legal(blocks, rc, cw, 3) {
        Some(3int)
    } else if rotation_kick_legal(blocks, rc, cw, 4) {
        Some(4int)
    } else {
        None
    }
}

/// One falling block after a committed turn with the kick at priority `k`:
/// moved to its kicked cell, its rotation-state index advanced.
pub open spec fn rotated_block(b: Block, rc: RotationCenter, cw: bool, k: int) -> Block {
    Block {
        x: kicked_cell(b, rc, cw, k).0 as i32,
        y: kicked_cell(b, rc, cw, k).1 as i32,
        rotation: next_rotation_spec(b.rotation, cw),
        ..b
    }
}

/// The field after a committed turn: every falling block rotated and
/// kicked, settled blocks untouched.
pub open spec fn blocks_rotated(blocks: Seq<Block>, rc: RotationCenter, cw: bool, k: int) -> Seq<Block> {
    Seq::new(
        blocks.len(),
        |i: int|
            if blocks[i].falling {
                rotated_block(blocks[i], rc, cw, k)
            } else {
                blocks[i]
            },
    )
}

/// What one input event does to the field: a rotate event either commits
/// the turn under exactly the first legal kick of the five, or, if none is
/// legal, changes nothing; other events change nothing here.
pub open spec fn rotation_step(blocks: Seq<Block>, rc: RotationCenter, e: KeyEvent) -> Seq<Block> {
    match rotation_dir(e) {
        Option::None => blocks,
        Option::Some(cw) => match chosen_kick(blocks, rc, cw) {
            Option::None => blocks,
            Option::Some(k) => blocks_rotated(blocks, rc, cw, k),
        },
    }
}

/// The field after a queue of events, applied in arrival order.
pub open spec fn rotation_run_spec(blocks: Seq<Block>, rc: RotationCenter, events: Seq<KeyEvent>) -> Seq<Block>
    decreases events.len(),
{
    if events.len() == 0 {
        blocks
    } else {
        rotation_run_spec(rotation_step(blocks, rc, events[0]), rc, events.drop_first())
    }
}

/// The ordered kick row tried for one piece, rotation state and direction.
pub fn get_wall_kick_data(piece: Tetrominos, rotation: u8, dir_clockwise: bool) -> (r: Vec<(i32, i32)>)
    requires
        rotation < 4,
    ensures
        r@ == kick_table_spec(piece, rotation, dir_clockwise),
{
    let r = match piece {
        Tetrominos::O => kick_row((0, 0), (0, 0), (0, 0), (0, 0), (0, 0)),
        Tetrominos::I => {
            if dir_clockwise {
                if rotation == 0 {
                    kick_row((0, 0), (-2, 0), (1, 0), (-2, -1), (1, 2))
                } else if rotation == 1 {
                    kick_row((0, 0), (-1, 0), (2, 0), (-1, 2), (2, -1))
                } else if rotation == 2 {
                    kick_row((0, 0), (2, 0), (-1, 0), (2, 1), (-1, -2))
                } else {
                    kick_row((0, 0), (-1, 0), (2, 0), (-1, 2), (2, -1))
                }
            } else {
                if rotation == 0 {
                    kick_row((0, 0), (1, 0), (-2, 0), (1, -2), (-2, 1))
                } else if rotation == 1 {
                    kick_row((0, 0), (2, 0), (-1, 0), (2, 1), (-1, -2))
                } else if rotation == 2 {
                    kick_row((0, 0), (1, 0), (-2, 0), (1, -2), (-2, 1))
                } else {
                    kick_row((0, 0), (-2, 0), (1, 0), (-2, -1), (1, 2))
                }
            }
        },
        _ => {
            if dir_clockwise {
                if rotation == 0 {
                    kick_row((0, 0), (-1, 0), (-1, 1), (0, -2), (-1, -2))
                } else if rotation == 1 {
                    kick_row((0, 0), (1, 0), (1, -1), (0, 2), (1, 2))
                } else if rotation == 2 {
                    kick_row((0, 0), (1, 0), (1, 1), (0, -2), (1, -2))
                } else {
                    kick_row((0, 0), (1, 0), (1, 1), (0, -2), (1, -2))
                }
            } else {
                if rotation == 0 {
                    kick_row((0, 0), (-1, 0), (-1, -1), (0, 2), (-1, 2))
                } else if rotation == 1 {
                    kick_row((0, 0), (1, 0), (1, -1), (0, 2), (1, 2))
                } else if rotation == 2 {
                    kick_row((0, 0), (-1, 0), (-1, 1), (0, -2), (-1, -2))
                } else {
                    kick_row((0, 0), (-1, 0), (-1, -1), (0, 2), (-1, 2))
                }
            }
        },
    };
    assert(r@ =~= kick_table_spec(piece, rotation, dir_clockwise));
    r
}

/// Five kick offsets in priority order as a row.
fn kick_row(
    a: (i32, i32),
    b: (i32, i32),
    c: (i32, i32),
    d: (i32, i32),
    e: (i32, i32),
) -> (r: Vec<(i32, i32)>)
    ensures
        r@ =~= seq![a, b, c, d, e],
{
    let mut v: Vec<(i32, i32)> = Vec::new();
    v.push(a);
    v.push(b);
    v.push(c);
    v.push(d);
    v.push(e);
    v
}

/// The bounds under which the rotation arithmetic stays inside `i32`.
pub open spec fn rotation_exec_bounds(blocks: Seq<Block>, rc: RotationCenter) -> bool {
    &&& forall|i: int|
        0 <= i < blocks.len() && (#[trigger] blocks[i]).falling ==> -0x1000_0000 <= blocks[i].x
            <= 0x1000_0000 && -0x1000_0000 <= blocks[i].y <= 0x1000_0000 && blocks[i].rotation < 4
    &&& -0x1000_0000 <= rc.x <= 0x1000_0000
    &&& -0x1000_0000 <= rc.y <= 0x1000_0000
}

/// Whether the turn commits under the kick at priority `k`: every falling
/// block's kicked cell passes the collision engine.
fn kick_allowed(blocks: &Vec<Block>, rc: &RotationCenter, cw: bool, k: usize) -> (r: bool)
    requires
        rotation_exec_bounds(blocks@, *rc),
        k < 5,
    ensures
        r == rotation_kick_legal(blocks@, *rc, cw, k as int),
{
    let mut i: usize = 0;
    while i < blocks.len()
        invariant
            0 <= i <= blocks@.len(),
            rotation_exec_bounds(blocks@, *rc),
            k < 5,
            forall|j: int|
                0 <= j < i && (#[trigger] blocks@[j]).falling ==> cell_in_bounds(
                    kicked_cell(blocks@[j], *rc, cw, k as int).0,
                ) && !occupied_by_settled(
                    blocks@,
                    kicked_cell(blocks@[j], *rc, cw, k as int).0,
                    kicked_cell(blocks@[j], *rc, cw, k as int).1,
                ),
        decreases blocks@.len() - i,
    {
        let b = blocks[i];
        if b.falling {
            let (rx, ry) = get_rotated(b.x, b.y, rc.x, rc.y, cw);
            let row = get_wall_kick_data(b.piece, b.rotation, cw);
            let (dx, dy) = row[k];
            let x = rx + dx * 2;
            let y = ry + dy * 2;
            assert((x as int, y as int) == kicked_cell(blocks@[i as int], *rc, cw, k as int));
            if x < 0 || x > crate::constants::ARENA_WIDTH - 2 {
                return false;
            }
            if crate::collision::settled_at(blocks, x, y) {
                return false;
            }
        }
        i = i + 1;
    }
    true
}

/// Applies one input event to the field: either the whole falling piece
/// turns, moved by exactly the first legal kick of the five, together with
/// its rotation-state index, or nothing changes.
pub fn apply_rotation(blocks: &mut Vec<Block>, rotation_center: &RotationCenter, event: &KeyEvent)
    requires
        rotation_exec_bounds(old(blocks)@, *rotation_center),
    ensures
        final(blocks)@ == rotation_step(old(blocks)@, *rotation_center, *event),
{
    let dir_clockwise = match event {
        KeyEvent::RotateClockwise => true,
        KeyEvent::RotateCounterClockwise => false,
        _ => {
            return ;
        },
    };

    let mut found = false;
    let mut possible_kick: usize = 0;
    let mut k: usize = 0;
    while k < 5
        invariant
            0 <= k <= 5,
            rotation_exec_bounds(blocks@, *rotation_center),
            !found ==> forall|j: int|
                0 <= j < k ==> !rotation_kick_legal(blocks@, *rotation_center, dir_clockwise, j),
            found ==> possible_kick < k && rotation_kick_legal(
                blocks@,
                *rotation_center,
                dir_clockwise,
                possible_kick as int,
            ) && forall|j: int|
                0 <= j < possible_kick ==> !rotation_kick_legal(
                    blocks@,
                    *rotation_center,
                    dir_clockwise,
                    j,
                ),
        decreases 5 - k,
    {
        if !found {
            if kick_allowed(blocks, rotation_center, dir_clockwise, k) {
                found = true;
                possible_kick = k;
            }
        }
        k = k + 1;
    }

    if !found {
        assert(chosen_kick(blocks@, *rotation_center, dir_clockwise) is None);
        return ;
    }
    assert(chosen_kick(blocks@, *rotation_center, dir_clockwise) == Some(possible_kick as int));

    let ghost pre = blocks@;
    let mut i: usize = 0;
    while i < blocks.len()
        invariant
            0 <= i <= pre.len(),
            blocks@.len() == pre.len(),
            possible_kick < 5,
            rotation_exec_bounds(pre, *rotation_center),
            rotation_kick_legal(pre, *rotation_center, dir_clockwise, possible_kick as int),
            forall|j: int|
                0 <= j < i ==> blocks@[j] == blocks_rotated(
                    pre,
                    *rotation_center,
                    dir_clockwise,
                    possible_kick as int,
                )[j],
            forall|j: int| i <= j < pre.len() ==> blocks@[j] == pre[j],
        decreases pre.len() - i,
    {
        let b = blocks[i];
        if b.falling {
            assert(pre[i as int].falling);
            let (rx, ry) = get_rotated(b.x, b.y, rotation_center.x, rotation_center.y, dir_clockwise);
            let row = get_wall_kick_data(b.piece, b.rotation, dir_clockwise);
            let (dx, dy) = row[possible_kick];
            let x = rx + dx * 2;
            let y = ry + dy * 2;
            let next_rot = if dir_clockwise {
                (b.rotation + 1) % 4
            } else {
                (b.rotation + 3) % 4
            };
            blocks[i] = Block { x, y, rotation: next_rot, ..b };
            assert(blocks@[i as int] == rotated_block(
                pre[i as int],
                *rotation_center,
                dir_clockwise,
                possible_kick as int,
            ));
        }
        i = i + 1;
    }
    assert(blocks@ =~= blocks_rotated(pre, *rotation_center, dir_clockwise, possible_kick as int));
}

/// Turns the falling piece on player input, resolving wall kicks.
pub struct RotationSystem;

impl RotationSystem {
    pub fn new() -> RotationSystem {
        RotationSystem
    }

    /// Drains one tick's input events in arrival order, applying each
    /// rotation that some kick makes legal. The pivot itself never moves
    /// under rotation.
    pub fn run(&self, events: &Vec<KeyEvent>, blocks: &mut Vec<Block>, rotation_center: &RotationCenter)
        requires
            forall|i: int|
                0 <= i < old(blocks)@.len() && (#[trigger] old(blocks)@[i]).falling ==> 0 <= old(
                    blocks,
                )@[i].x <= crate::constants::ARENA_WIDTH - 2 && -0x0100_0000 <= old(blocks)@[i].y
                    <= 0x0100_0000 && old(blocks)@[i].rotation < 4,
            -0x0010_0000 <= rotation_center.x <= 0x0010_0000,
            -0x0010_0000 <= rotation_center.y <= 0x0010_0000,
        ensures
            final(blocks)@ == rotation_run_spec(old(blocks)@, *rotation_center, events@),
    {
        let ghost pre_blocks = old(blocks)@;
        proof {
            assert(events@.skip(0) =~= events@);
        }
        let mut k: usize = 0;
        while k < events.len()
            invariant
                0 <= k <= events@.len(),
                forall|i: int|
                    0 <= i < blocks@.len() && (#[trigger] blocks@[i]).falling ==> 0 <= blocks@[i].x
                        <= crate::constants::ARENA_WIDTH - 2 && -0x0100_0000 <= blocks@[i].y
                        <= 0x0100_0000 && blocks@[i].rotation < 4,
                -0x0010_0000 <= rotation_center.x <= 0x0010_0000,
                -0x0010_0000 <= rotation_center.y <= 0x0010_0000,
                rotation_run_spec(blocks@, *rotation_center, events@.skip(k as int))
                    == rotation_run_spec(pre_blocks, *rotation_center, events@),
            decreases events@.len() - k,
        {
            let ghost before = blocks@;
            let e = events[k];
            apply_rotation(blocks, rotation_center, &e);
            proof {
                let rest = events@.skip(k as int);
                assert(rest[0] == events@[k as int]);
                assert(rest.drop_first() =~= events@.skip(k as int + 1));
                lemma_rotation_step_keeps_bounds(before, *rotation_center, e);
            }
            k = k + 1;
        }
        assert(events@.skip(events@.len() as int) =~= Seq::<KeyEvent>::empty());
    }
}

/// Every kick offset in every table is at most two cells in each axis.
#[verifier::rlimit(30)]
proof fn lemma_kick_offset_bounds(piece: Tetrominos, rotation: u8, cw: bool, k: int)
    requires
        0 <= k < 5,
    ensures
        -2 <= kick_offset_spec(piece, rotation, cw, k).0 <= 2,
        -2 <= kick_offset_spec(piece, rotation, cw, k).1 <= 2,
{
}

/// A committed turn keeps every falling block inside the walls, keeps its y
/// within the range the arithmetic needs, and keeps its rotation-state
/// index in `0 ..= 3`.
#[verifier::rlimit(30)]
proof fn lemma_rotation_step_keeps_bounds(blocks: Seq<Block>, rc: RotationCenter, e: KeyEvent)
    requires
        forall|i: int|
            0 <= i < blocks.len() && (#[trigger] blocks[i]).falling ==> 0 <= blocks[i].x
                <= crate::constants::ARENA_WIDTH - 2 && -0x0100_0000 <= blocks[i].y <= 0x0100_0000
                && blocks[i].rotation < 4,
        -0x0010_0000 <= rc.x <= 0x0010_0000,
        -0x0010_0000 <= rc.y <= 0x0010_0000,
    ensures
        forall|i: int|
            0 <= i < rotation_step(blocks, rc, e).len() && (#[trigger] rotation_step(
                blocks,
                rc,
                e,
            )[i]).falling ==> 0 <= rotation_step(blocks, rc, e)[i].x
                <= crate::constants::ARENA_WIDTH - 2 && -0x0100_0000 <= rotation_step(
                blocks,
                rc,
                e,
            )[i].y <= 0x0100_0000 && rotation_step(blocks, rc, e)[i].rotation < 4,
{
    let stepped = rotation_step(blocks, rc, e);
    if rotation_dir(e) is Some {
        let cw = rotation_dir(e)->Some_0;
        if chosen_kick(blocks, rc, cw) is Some {
            let k = chosen_kick(blocks, rc, cw)->Some_0;
            assert(rotation_kick_legal(blocks, rc, cw, k));
            assert forall|i: int|
                0 <= i < stepped.len() && (#[trigger] stepped[i]).falling implies 0 <= stepped[i].x
                <= crate::constants::ARENA_WIDTH - 2 && -0x0100_0000 <= stepped[i].y <= 0x0100_0000
                && stepped[i].rotation < 4 by {
                if blocks[i].falling {
                    assert(cell_in_bounds(kicked_cell(blocks[i], rc, cw, k).0));
                    lemma_kick_offset_bounds(blocks[i].piece, blocks[i].rotation, cw, k);
                }
            }
        }
    }
}

/// A rotation is all-or-nothing: on a rotate event with some legal kick,
/// every falling block moves to its cell under exactly the first legal kick
/// of the five and its rotation-state index advances with the direction,
/// while the settled stack is untouched; when no kick is legal, or the
/// event is no rotation, nothing changes at all.
pub proof fn lemma_rotation_all_or_nothing(blocks: Seq<Block>, rc: RotationCenter, e: KeyEvent)
    ensures
        rotation_dir(e) is Some && chosen_kick(blocks, rc, rotation_dir(e)->Some_0) is Some ==> {
            let cw = rotation_dir(e)->Some_0;
            let k = chosen_kick(blocks, rc, cw)->Some_0;
            &&& 0 <= k < 5
            &&& rotation_kick_legal(blocks, rc, cw, k)
            &&& forall|j: int| 0 <= j < k ==> !rotation_kick_legal(blocks, rc, cw, j)
            &&& rotation_step(blocks, rc, e).len() == blocks.len()
            &&& forall|i: int|
                0 <= i < blocks.len() && (#[trigger] blocks[i]).falling ==> rotation_step(
                    blocks,
                    rc,
                    e,
                )[i] == rotated_block(blocks[i], rc, cw, k)
            &&& forall|i: int|
                0 <= i < blocks.len() && !(#[trigger] blocks[i]).falling ==> rotation_step(
                    blocks,
                    rc,
                    e,
                )[i] == blocks[i]
        },
        rotation_dir(e) is Some && chosen_kick(blocks, rc, rotation_dir(e)->Some_0) is None
            ==> rotation_step(blocks, rc, e) == blocks,
        rotation_dir(e) is None ==> rotation_step(blocks, rc, e) == blocks,
{
}

/// The kick at priority 0 is always the zero offset, in every table.
proof fn lemma_kick0_is_zero(piece: Tetrominos, rotation: u8, cw: bool)
    ensures
        kick_offset_spec(piece, rotation, cw, 0) == (0i32, 0i32),
{
}

/// One block turned clockwise four times around the pivot, each time under
/// the zero kick, is back where it started, rotation-state index included.
proof fn lemma_block_round_trip(b: Block, rc: RotationCenter)
    requires
        -0x0010_0000 <= b.x <= 0x0010_0000,
        -0x0010_0000 <= b.y <= 0x0010_0000,
        b.rotation < 4,
        -0x0010_0000 <= rc.x <= 0x0010_0000,
        -0x0010_0000 <= rc.y <= 0x0010_0000,
    ensures
        rotated_block(
            rotated_block(rotated_block(rotated_block(b, rc, true, 0), rc, true, 0), rc, true, 0),
            rc,
            true,
            0,
        ) == b,
{
    let b1 = rotated_block(b, rc, true, 0);
    let b2 = rotated_block(b1, rc, true, 0);
    let b3 = rotated_block(b2, rc, true, 0);
    let b4 = rotated_block(b3, rc, true, 0);
    lemma_kick0_is_zero(b.piece, b.rotation, true);
    lemma_kick0_is_zero(b1.piece, b1.rotation, true);
    lemma_kick0_is_zero(b2.piece, b2.rotation, true);
    lemma_kick0_is_zero(b3.piece, b3.rotation, true);
    assert(b4.x == b.x && b4.y == b.y && b4.rotation == b.rotation);
}

/// Rotating the piece clockwise four times in the open field, with no kick
/// needed (every turn committing under the zero offset at priority 0),
/// returns every block to its original coordinate and rotation-state index.
pub proof fn lemma_rotation_round_trip(blocks: Seq<Block>, rc: RotationCenter)
    requires
        forall|i: int|
            0 <= i < blocks.len() && (#[trigger] blocks[i]).falling ==> -0x0010_0000
                <= blocks[i].x <= 0x0010_0000 && -0x0010_0000 <= blocks[i].y <= 0x0010_0000
                && blocks[i].rotation < 4,
        -0x0010_0000 <= rc.x <= 0x0010_0000,
        -0x0010_0000 <= rc.y <= 0x0010_0000,
    ensures
        blocks_rotated(
            blocks_rotated(
                blocks_rotated(blocks_rotated(blocks, rc, true, 0), rc, true, 0),
                rc,
                true,
                0,
            ),
            rc,
            true,
            0,
        ) == blocks,
{
    let s1 = blocks_rotated(blocks, rc, true, 0);
    let s2 = blocks_rotated(s1, rc, true, 0);
    let s3 = blocks_rotated(s2, rc, true, 0);
    let s4 = blocks_rotated(s3, rc, true, 0);
    assert forall|i: int| 0 <= i < blocks.len() implies s4[i] == blocks[i] by {
        if blocks[i].falling {
            assert(s1[i] == rotated_block(blocks[i], rc, true, 0));
            assert(s2[i] == rotated_block(s1[i], rc, true, 0));
            assert(s3[i] == rotated_block(s2[i], rc, true, 0));
            assert(s4[i] == rotated_block(s3[i], rc, true, 0));
            lemma_block_round_trip(blocks[i], rc);
        }
    }
    assert(s4 =~= blocks);
}

} // verus!
