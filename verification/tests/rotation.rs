use blockfall::components::{Block, RotationCenter};
use blockfall::key_update::KeyEvent;
use blockfall::rotation::{apply_rotation, get_rotated, get_wall_kick_data, RotationSystem};
use blockfall::spawn::Tetrominos;

fn falling(x: i32, y: i32, piece: Tetrominos, rotation: u8) -> Block {
    Block { x, y, falling: true, initialized: true, piece, rotation }
}

fn settled(x: i32, y: i32) -> Block {
    Block { x, y, falling: false, initialized: true, piece: Tetrominos::Z, rotation: 0 }
}

#[test]
fn quarter_turn_around_the_pivot() {
    // Clockwise the relative vector (dx, dy) becomes (dy, -dx).
    assert_eq!(get_rotated(6, 42, 9, 41, true), (10, 44));
    assert_eq!(get_rotated(10, 44, 9, 41, false), (6, 42));
    assert_eq!(get_rotated(8, 20, 8, 20, true), (8, 20));
}

#[test]
fn open_field_rotation_uses_the_zero_kick() {
    // I piece lying flat mid-field: the unkicked turn is legal, so the
    // piece pivots in place and every rotation index advances to 1.
    let mut blocks = vec![
        falling(6, 20, Tetrominos::I, 0),
        falling(8, 20, Tetrominos::I, 0),
        falling(10, 20, Tetrominos::I, 0),
        falling(12, 20, Tetrominos::I, 0),
    ];
    let rc = RotationCenter { x: 9, y: 19 };
    apply_rotation(&mut blocks, &rc, &KeyEvent::RotateClockwise);
    let coords: Vec<(i32, i32)> = blocks.iter().map(|b| (b.x, b.y)).collect();
    assert_eq!(coords, vec![(10, 22), (10, 20), (10, 18), (10, 16)]);
    assert!(blocks.iter().all(|b| b.rotation == 1 && b.falling));
}

#[test]
fn four_clockwise_turns_return_the_piece() {
    // Round trip in the open field: no kick is ever needed, and after four
    // turns every block is back at its coordinate and rotation index 0.
    let start = vec![
        falling(6, 20, Tetrominos::I, 0),
        falling(8, 20, Tetrominos::I, 0),
        falling(10, 20, Tetrominos::I, 0),
        falling(12, 20, Tetrominos::I, 0),
    ];
    let mut blocks = start.clone();
    let rc = RotationCenter { x: 9, y: 19 };
    for _ in 0..4 {
        apply_rotation(&mut blocks, &rc, &KeyEvent::RotateClockwise);
    }
    assert_eq!(blocks, start);
}

#[test]
fn counter_clockwise_undoes_clockwise() {
    let start = vec![
        falling(6, 20, Tetrominos::J, 0),
        falling(6, 18, Tetrominos::J, 0),
        falling(8, 18, Tetrominos::J, 0),
        falling(10, 18, Tetrominos::J, 0),
    ];
    let mut blocks = start.clone();
    let rc = RotationCenter { x: 8, y: 18 };
    apply_rotation(&mut blocks, &rc, &KeyEvent::RotateClockwise);
    assert!(blocks.iter().all(|b| b.rotation == 1));
    apply_rotation(&mut blocks, &rc, &KeyEvent::RotateCounterClockwise);
    assert_eq!(blocks, start);
}

#[test]
fn blocked_kick_priorities_fall_through_to_the_third() {
    // J piece against obstacles placed so that kick 0 and kick 1 both hit
    // the stack while kick index 2 (offset (-1, 1)) is the first legal one:
    // the commit must use that offset, not the zero offset.
    let mut blocks = vec![
        falling(14, 12, Tetrominos::J, 0),
        falling(14, 10, Tetrominos::J, 0),
        falling(16, 10, Tetrominos::J, 0),
        falling(18, 10, Tetrominos::J, 0),
        settled(16, 8),
        settled(14, 8),
    ];
    let rc = RotationCenter { x: 16, y: 10 };
    apply_rotation(&mut blocks, &rc, &KeyEvent::RotateClockwise);
    let coords: Vec<(i32, i32)> = blocks.iter().take(4).map(|b| (b.x, b.y)).collect();
    assert_eq!(coords, vec![(16, 14), (14, 14), (14, 12), (14, 10)]);
    assert!(blocks.iter().take(4).all(|b| b.rotation == 1 && b.falling));
    assert_eq!((blocks[4].x, blocks[4].y, blocks[4].falling), (16, 8, false));
    assert_eq!((blocks[5].x, blocks[5].y, blocks[5].falling), (14, 8, false));
}

#[test]
fn rotation_with_no_legal_kick_changes_nothing() {
    // The falling block is walled in on every cell the five kicks could
    // reach, so the rotation is rejected outright.
    let mut blocks = vec![falling(8, 20, Tetrominos::T, 0)];
    let rc = RotationCenter { x: 8, y: 22 };
    // Unkicked cell is (6, 22); the kicks shift it by (-2,0),(-2,2),(0,-4),(-2,-4).
    for &(x, y) in &[(6, 22), (4, 22), (4, 24), (6, 18), (4, 18)] {
        blocks.push(settled(x, y));
    }
    let before = blocks.clone();
    apply_rotation(&mut blocks, &rc, &KeyEvent::RotateClockwise);
    assert_eq!(blocks, before);
}

#[test]
fn o_piece_turns_in_place() {
    let mut blocks = vec![
        falling(8, 20, Tetrominos::O, 0),
        falling(8, 22, Tetrominos::O, 0),
        falling(10, 20, Tetrominos::O, 0),
        falling(10, 22, Tetrominos::O, 0),
    ];
    let rc = RotationCenter { x: 9, y: 21 };
    apply_rotation(&mut blocks, &rc, &KeyEvent::RotateClockwise);
    let mut coords: Vec<(i32, i32)> = blocks.iter().map(|b| (b.x, b.y)).collect();
    coords.sort();
    assert_eq!(coords, vec![(8, 20), (8, 22), (10, 20), (10, 22)]);
    assert!(blocks.iter().all(|b| b.rotation == 1));
}

#[test]
fn kick_rows_match_the_tables() {
    let row = get_wall_kick_data(Tetrominos::J, 0, true);
    assert_eq!(row, vec![(0, 0), (-1, 0), (-1, 1), (0, -2), (-1, -2)]);
    let row = get_wall_kick_data(Tetrominos::J, 1, false);
    assert_eq!(row, vec![(0, 0), (1, 0), (1, -1), (0, 2), (1, 2)]);
    let row = get_wall_kick_data(Tetrominos::I, 2, true);
    assert_eq!(row, vec![(0, 0), (2, 0), (-1, 0), (2, 1), (-1, -2)]);
    let row = get_wall_kick_data(Tetrominos::I, 3, false);
    assert_eq!(row, vec![(0, 0), (-2, 0), (1, 0), (-2, -1), (1, 2)]);
    let row = get_wall_kick_data(Tetrominos::O, 2, false);
    assert_eq!(row, vec![(0, 0), (0, 0), (0, 0), (0, 0), (0, 0)]);
}

#[test]
fn run_handles_rotation_events_in_order() {
    let start = vec![
        falling(6, 20, Tetrominos::I, 0),
        falling(8, 20, Tetrominos::I, 0),
        falling(10, 20, Tetrominos::I, 0),
        falling(12, 20, Tetrominos::I, 0),
    ];
    let mut blocks = start.clone();
    let rc = RotationCenter { x: 9, y: 19 };
    let events = vec![
        KeyEvent::RotateClockwise,
        KeyEvent::Left,
        KeyEvent::RotateCounterClockwise,
    ];
    RotationSystem::new().run(&events, &mut blocks, &rc);
    assert_eq!(blocks, start);
}
