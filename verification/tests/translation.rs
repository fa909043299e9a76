use blockfall::components::{Block, RotationCenter};
use blockfall::key_update::KeyEvent;
use blockfall::spawn::Tetrominos;
use blockfall::translation::{apply_translation, translation_allowed, TranslationSystem};

fn piece_t(xs: [i32; 4], ys: [i32; 4], falling: bool) -> Vec<Block> {
    (0..4)
        .map(|i| Block {
            x: xs[i],
            y: ys[i],
            falling,
            initialized: true,
            piece: Tetrominos::T,
            rotation: 0,
        })
        .collect()
}

#[test]
fn legal_shift_moves_every_block_and_the_pivot() {
    let mut blocks = piece_t([6, 8, 8, 10], [20, 22, 20, 20], true);
    let mut rc = RotationCenter { x: 8, y: 20 };
    apply_translation(&mut blocks, &mut rc, &KeyEvent::Right);
    let xs: Vec<i32> = blocks.iter().map(|b| b.x).collect();
    let ys: Vec<i32> = blocks.iter().map(|b| b.y).collect();
    assert_eq!(xs, vec![8, 10, 10, 12]);
    assert_eq!(ys, vec![20, 22, 20, 20]);
    assert_eq!((rc.x, rc.y), (10, 20));
}

#[test]
fn left_at_the_wall_is_rejected_without_mutation() {
    // Leftmost falling block at x = 0: a Left event changes nothing.
    let mut blocks = piece_t([0, 2, 2, 4], [20, 22, 20, 20], true);
    let before = blocks.clone();
    let mut rc = RotationCenter { x: 2, y: 20 };
    apply_translation(&mut blocks, &mut rc, &KeyEvent::Left);
    assert_eq!(blocks, before);
    assert_eq!((rc.x, rc.y), (2, 20));
}

#[test]
fn shift_into_the_stack_is_rejected() {
    let mut blocks = piece_t([6, 8, 8, 10], [20, 22, 20, 20], true);
    blocks.push(Block {
        x: 12,
        y: 20,
        falling: false,
        initialized: true,
        piece: Tetrominos::Z,
        rotation: 0,
    });
    let before = blocks.clone();
    let mut rc = RotationCenter { x: 8, y: 20 };
    apply_translation(&mut blocks, &mut rc, &KeyEvent::Right);
    assert_eq!(blocks, before);
    assert_eq!(rc.x, 8);
}

#[test]
fn settled_blocks_never_move() {
    let mut blocks = piece_t([6, 8, 8, 10], [20, 22, 20, 20], true);
    blocks.push(Block {
        x: 4,
        y: 0,
        falling: false,
        initialized: true,
        piece: Tetrominos::Z,
        rotation: 0,
    });
    let mut rc = RotationCenter { x: 8, y: 20 };
    apply_translation(&mut blocks, &mut rc, &KeyEvent::Left);
    assert_eq!((blocks[4].x, blocks[4].y), (4, 0));
    assert_eq!(blocks[0].x, 4);
}

#[test]
fn unrelated_events_are_ignored() {
    let mut blocks = piece_t([6, 8, 8, 10], [20, 22, 20, 20], true);
    let before = blocks.clone();
    let mut rc = RotationCenter { x: 8, y: 20 };
    apply_translation(&mut blocks, &mut rc, &KeyEvent::Descend);
    apply_translation(&mut blocks, &mut rc, &KeyEvent::Drop);
    apply_translation(&mut blocks, &mut rc, &KeyEvent::RotateClockwise);
    assert_eq!(blocks, before);
    assert_eq!(rc.x, 8);
}

#[test]
fn translation_allowed_checks_bounds() {
    let blocks = piece_t([0, 2, 2, 4], [20, 22, 20, 20], true);
    assert!(!translation_allowed(&blocks, -2));
    assert!(translation_allowed(&blocks, 2));
}

#[test]
fn run_applies_events_in_arrival_order() {
    // Right against the wall at x = 18, then Left: the first is rejected,
    // the second lands.
    let mut blocks = piece_t([14, 16, 16, 18], [20, 22, 20, 20], true);
    let mut rc = RotationCenter { x: 16, y: 20 };
    let events = vec![KeyEvent::Right, KeyEvent::Left, KeyEvent::Left];
    TranslationSystem::new().run(&events, &mut blocks, &mut rc);
    let xs: Vec<i32> = blocks.iter().map(|b| b.x).collect();
    assert_eq!(xs, vec![10, 12, 12, 14]);
    assert_eq!(rc.x, 12);
}
