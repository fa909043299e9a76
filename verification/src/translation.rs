//! Translation: left/right input shifts the falling piece one column,
//! pivot included, if every shifted cell stays inside the walls and off the
//! settled stack; otherwise the event has no effect at all.

use vstd::prelude::*;
use crate::collision::{cell_in_bounds, occupied_by_settled};
use crate::components::{Block, RotationCenter};
use crate::key_update::KeyEvent;

verus! {

/// The column shift an event asks for, in raw units: left and right move by
/// one cell (2 units); other events are ignored here.
pub open spec fn translation_delta(e: KeyEvent) -> Option<i32> {
    match e {
        KeyEvent::Left => Some(-2i32),
        KeyEvent::Right => Some(2i32),
        _ => None,
    }
}

/// Shifting every falling block's x by `delta` keeps each inside the walls
/// and off the settled stack.
pub open spec fn translation_legal(blocks: Seq<Block>, delta: int) -> bool {
    forall|i: int|
        0 <= i < blocks.len() && (#[trigger] blocks[i]).falling ==> cell_in_bounds(
            blocks[i].x + delta,
        ) && !occupied_by_settled(blocks, blocks[i].x + delta, blocks[i].y as int)
}

/// The field with every falling block shifted by `delta` columns; settled
/// blocks untouched.
pub open spec fn blocks_translated(blocks: Seq<Block>, delta: i32) -> Seq<Block> {
    Seq::new(
        blocks.len(),
        |i: int|
            if blocks[i].falling {
                Block { x: (blocks[i].x + delta) as i32, ..blocks[i] }
            } else {
                blocks[i]
            },
    )
}

/// What one input event does to the field and the pivot: a legal left/right
/// shift moves every falling block and the pivot by the same delta; an
/// illegal or unrelated event changes nothing.
pub open spec fn translation_step(blocks: Seq<Block>, rc: RotationCenter, e: KeyEvent) -> (
    Seq<Block>,
    RotationCenter,
) {
    match translation_delta(e) {
        Option::None => (blocks, rc),
        Option::Some(d) => if translation_legal(blocks, d as int) {
            (blocks_translated(blocks, d), RotationCenter { x: (rc.x + d) as i32, y: rc.y })
        } else {
            (blocks, rc)
        },
    }
}

/// The field and pivot after a queue of events, applied in arrival order.
pub open spec fn translation_run_spec(
    blocks: Seq<Block>,
    rc: RotationCenter,
    events: Seq<KeyEvent>,
) -> (Seq<Block>, RotationCenter)
    decreases events.len(),
{
    if events.len() == 0 {
        (blocks, rc)
    } else {
        let s = translation_step(blocks, rc, events[0]);
        translation_run_spec(s.0, s.1, events.drop_first())
    }
}

/// Whether shifting the falling piece by `delta` columns is allowed.
pub fn translation_allowed(blocks: &Vec<Block>, delta: i32) -> (r: bool)
    requires
        -2 <= delta <= 2,
        forall|i: int|
            0 <= i < blocks@.len() && (#[trigger] blocks@[i]).falling ==> i32::MIN + 2
                <= blocks@[i].x <= i32::MAX - 2,
    ensures
        r == translation_legal(blocks@, delta as int),
{
    let mut i: usize = 0;
    while i < blocks.len()
        invariant
            0 <= i <= blocks@.len(),
            -2 <= delta <= 2,
            forall|j: int|
                0 <= j < blocks@.len() && (#[trigger] blocks@[j]).falling ==> i32::MIN + 2
                    <= blocks@[j].x <= i32::MAX - 2,
            forall|j: int|
                0 <= j < i && (#[trigger] blocks@[j]).falling ==> cell_in_bounds(
                    blocks@[j].x + delta,
                ) && !occupied_by_settled(blocks@, blocks@[j].x + delta, blocks@[j].y as int),
        decreases blocks@.len() - i,
    {
        let b = blocks[i];
        if b.falling {
            let nx = b.x + delta;
            if nx < 0 || nx > crate::constants::ARENA_WIDTH - 2 {
                return false;
            }
            if crate::collision::settled_at(blocks, nx, b.y) {
                return false;
            }
        }
        i = i + 1;
    }
    true
}

/// Applies one input event to the field and the pivot: all of the falling
/// piece moves by the event's delta, or nothing does.
pub fn apply_translation(
    blocks: &mut Vec<Block>,
    rotation_center: &mut RotationCenter,
    event: &KeyEvent,
)
    requires
        forall|i: int|
            0 <= i < old(blocks)@.len() && (#[trigger] old(blocks)@[i]).falling ==> i32::MIN + 2
                <= old(blocks)@[i].x <= i32::MAX - 2,
        i32::MIN + 2 <= old(rotation_center).x <= i32::MAX - 2,
    ensures
        final(blocks)@ == translation_step(old(blocks)@, *old(rotation_center), *event).0,
        *final(rotation_center) == translation_step(old(blocks)@, *old(rotation_center), *event).1,
        crate::gravity::falling_on_grid(old(blocks)@) ==> crate::gravity::falling_on_grid(
            final(blocks)@,
        ),
{
    let delta: i32 = match event {
        KeyEvent::Left => -2,
        KeyEvent::Right => 2,
        _ => {
            return ;
        },
    };

    if translation_allowed(blocks, delta) {
        let ghost pre = blocks@;
        let mut i: usize = 0;
        while i < blocks.len()
            invariant
                0 <= i <= pre.len(),
                blocks@.len() == pre.len(),
                -2 <= delta <= 2,
                translation_legal(pre, delta as int),
                forall|j: int|
                    0 <= j < pre.len() && (#[trigger] pre[j]).falling ==> i32::MIN + 2 <= pre[j].x
                        <= i32::MAX - 2,
                forall|j: int| 0 <= j < i ==> blocks@[j] == blocks_translated(pre, delta)[j],
                forall|j: int| i <= j < pre.len() ==> blocks@[j] == pre[j],
            decreases pre.len() - i,
        {
            let b = blocks[i];
            if b.falling {
                assert(pre[i as int].falling);
                blocks[i] = Block { x: b.x + delta, ..b };
            }
            i = i + 1;
        }
        assert(blocks@ =~= blocks_translated(pre, delta));
        rotation_center.x = rotation_center.x + delta;
    }
}

/// Shifts the falling piece left or right on player input.
pub struct TranslationSystem;

impl TranslationSystem {
    pub fn new() -> TranslationSystem {
        TranslationSystem
    }

    /// Drains one tick's input events in arrival order, applying each
    /// left/right shift that the collision engine allows.
    pub fn run(
        &self,
        events: &Vec<KeyEvent>,
        blocks: &mut Vec<Block>,
        rotation_center: &mut RotationCenter,
    )
        requires
            forall|i: int|
                0 <= i < old(blocks)@.len() && (#[trigger] old(blocks)@[i]).falling ==> i32::MIN
                    + 2 <= old(blocks)@[i].x <= i32::MAX - 2,
            old(rotation_center).x - 2 * events@.len() >= i32::MIN,
            old(rotation_center).x + 2 * events@.len() <= i32::MAX,
        ensures
            final(blocks)@ == translation_run_spec(
                old(blocks)@,
                *old(rotation_center),
                events@,
            ).0,
            *final(rotation_center) == translation_run_spec(
                old(blocks)@,
                *old(rotation_center),
                events@,
            ).1,
            crate::gravity::falling_on_grid(old(blocks)@) ==> crate::gravity::falling_on_grid(
                final(blocks)@,
            ),
    {
        let ghost pre_blocks = old(blocks)@;
        let ghost pre_rc = *old(rotation_center);
        proof {
            assert(events@.skip(0) =~= events@);
        }
        let mut k: usize = 0;
        while k < events.len()
            invariant
                0 <= k <= events@.len(),
                forall|i: int|
                    0 <= i < blocks@.len() && (#[trigger] blocks@[i]).falling ==> i32::MIN + 2
                        <= blocks@[i].x <= i32::MAX - 2,
                rotation_center.x - 2 * (events@.len() - k) >= i32::MIN,
                rotation_center.x + 2 * (events@.len() - k) <= i32::MAX,
                translation_run_spec(blocks@, *rotation_center, events@.skip(k as int))
                    == translation_run_spec(pre_blocks, pre_rc, events@),
                crate::gravity::falling_on_grid(pre_blocks) ==> crate::gravity::falling_on_grid(
                    blocks@,
                ),
            decreases events@.len() - k,
        {
            let ghost before_blocks = blocks@;
            let ghost before_rc = *rotation_center;
            let e = events[k];
            apply_translation(blocks, rotation_center, &e);
            proof {
                let rest = events@.skip(k as int);
                assert(rest[0] == events@[k as int]);
                assert(rest.drop_first() =~= events@.skip(k as int + 1));
                assert(translation_run_spec(before_blocks, before_rc, rest)
                    == translation_run_spec(blocks@, *rotation_center, events@.skip(k as int + 1)));
            }
            k = k + 1;
        }
        assert(events@.skip(events@.len() as int) =~= Seq::<KeyEvent>::empty());
    }
}

/// A translation is all-or-nothing: on a legal left/right event every
/// falling block and the pivot move by the very same delta and nothing else
/// changes; on a rejected or unrelated event nothing changes at all.
pub proof fn lemma_translation_all_or_nothing(blocks: Seq<Block>, rc: RotationCenter, e: KeyEvent)
    requires
        forall|i: int|
            0 <= i < blocks.len() && (#[trigger] blocks[i]).falling ==> i32::MIN + 2 <= blocks[i].x
                <= i32::MAX - 2,
        i32::MIN + 2 <= rc.x <= i32::MAX - 2,
    ensures
        translation_delta(e) is Some && translation_legal(
            blocks,
            translation_delta(e)->Some_0 as int,
        ) ==> {
            let d = translation_delta(e)->Some_0;
            let s = translation_step(blocks, rc, e);
            &&& s.0.len() == blocks.len()
            &&& forall|i: int|
                0 <= i < blocks.len() && (#[trigger] blocks[i]).falling ==> s.0[i].x == blocks[i].x
                    + d && s.0[i].y == blocks[i].y && s.0[i].falling && s.0[i].piece
                    == blocks[i].piece && s.0[i].rotation == blocks[i].rotation
            &&& forall|i: int|
                0 <= i < blocks.len() && !(#[trigger] blocks[i]).falling ==> s.0[i] == blocks[i]
            &&& s.1.x == rc.x + d
            &&& s.1.y == rc.y
        },
        translation_delta(e) is Some && !translation_legal(
            blocks,
            translation_delta(e)->Some_0 as int,
        ) ==> translation_step(blocks, rc, e) == (blocks, rc),
        translation_delta(e) is None ==> translation_step(blocks, rc, e) == (blocks, rc),
{
}

} // verus!
