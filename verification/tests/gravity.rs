use blockfall::components::{Block, GravityTimer, RotationCenter, SpawnTimer};
use blockfall::gravity::GravitySystem;
use blockfall::spawn::Tetrominos;

fn piece_i_at_spawn() -> Vec<Block> {
    [6, 8, 10, 12]
        .iter()
        .map(|&x| Block {
            x,
            y: 42,
            falling: true,
            initialized: true,
            piece: Tetrominos::I,
            rotation: 0,
        })
        .collect()
}

#[test]
fn gravity_waits_for_the_timer() {
    let mut blocks = piece_i_at_spawn();
    let before = blocks.clone();
    let mut gt = GravityTimer { timer: 100, threshold: 500 };
    let mut st = SpawnTimer { time_since_clear: 0, spawn_threshold: 1000, active: false };
    let mut rc = RotationCenter { x: 9, y: 41 };
    GravitySystem.run(&mut blocks, &mut gt, &mut st, &mut rc);
    assert_eq!(blocks, before);
    assert_eq!(gt.timer, 100);
    assert_eq!((rc.x, rc.y), (9, 41));
    assert!(!st.active);
}

#[test]
fn free_piece_drops_one_row() {
    // Piece I at rest with no obstacles: once the threshold has elapsed,
    // every block's y decreases by 2 and so does the pivot's.
    let mut blocks = piece_i_at_spawn();
    let mut gt = GravityTimer { timer: 501, threshold: 500 };
    assert!(gt.should_apply_gravity());
    let mut st = SpawnTimer { time_since_clear: 0, spawn_threshold: 1000, active: false };
    let mut rc = RotationCenter { x: 9, y: 41 };
    GravitySystem.run(&mut blocks, &mut gt, &mut st, &mut rc);
    let xs: Vec<i32> = blocks.iter().map(|b| b.x).collect();
    let ys: Vec<i32> = blocks.iter().map(|b| b.y).collect();
    assert_eq!(xs, vec![6, 8, 10, 12]);
    assert_eq!(ys, vec![40, 40, 40, 40]);
    assert!(blocks.iter().all(|b| b.falling));
    assert_eq!((rc.x, rc.y), (9, 39));
    assert_eq!(gt.timer, 0);
    assert!(!st.active);
}

#[test]
fn piece_on_the_bottom_row_locks() {
    // A falling block at y = 0: the gravity attempt clears every falling
    // flag, arms the respawn timer, and moves nothing.
    let mut blocks: Vec<Block> = [6, 8, 10, 12]
        .iter()
        .map(|&x| Block {
            x,
            y: 0,
            falling: true,
            initialized: true,
            piece: Tetrominos::I,
            rotation: 0,
        })
        .collect();
    let mut gt = GravityTimer { timer: 501, threshold: 500 };
    let mut st = SpawnTimer { time_since_clear: 7, spawn_threshold: 1000, active: false };
    let mut rc = RotationCenter { x: 9, y: -1 };
    GravitySystem.run(&mut blocks, &mut gt, &mut st, &mut rc);
    let ys: Vec<i32> = blocks.iter().map(|b| b.y).collect();
    assert_eq!(ys, vec![0, 0, 0, 0]);
    assert!(blocks.iter().all(|b| !b.falling));
    assert!(st.active);
    assert_eq!(st.time_since_clear, 7);
    assert_eq!((rc.x, rc.y), (9, -1));
    assert_eq!(gt.timer, 0);
}

#[test]
fn piece_above_the_stack_locks() {
    let mut blocks = vec![
        Block { x: 8, y: 10, falling: true, initialized: true, piece: Tetrominos::O, rotation: 0 },
        Block { x: 8, y: 8, falling: false, initialized: true, piece: Tetrominos::T, rotation: 0 },
    ];
    let mut gt = GravityTimer { timer: 501, threshold: 500 };
    let mut st = SpawnTimer { time_since_clear: 0, spawn_threshold: 1000, active: false };
    let mut rc = RotationCenter { x: 9, y: 11 };
    GravitySystem.run(&mut blocks, &mut gt, &mut st, &mut rc);
    assert_eq!((blocks[0].x, blocks[0].y, blocks[0].falling), (8, 10, false));
    assert_eq!((blocks[1].x, blocks[1].y, blocks[1].falling), (8, 8, false));
    assert!(st.active);
}

#[test]
fn stack_in_another_column_does_not_block() {
    let mut blocks = vec![
        Block { x: 8, y: 10, falling: true, initialized: true, piece: Tetrominos::O, rotation: 0 },
        Block { x: 10, y: 8, falling: false, initialized: true, piece: Tetrominos::T, rotation: 0 },
    ];
    let mut gt = GravityTimer { timer: 501, threshold: 500 };
    let mut st = SpawnTimer { time_since_clear: 0, spawn_threshold: 1000, active: false };
    let mut rc = RotationCenter { x: 9, y: 11 };
    GravitySystem.run(&mut blocks, &mut gt, &mut st, &mut rc);
    assert_eq!((blocks[0].y, blocks[0].falling), (8, true));
    assert_eq!((blocks[1].y, blocks[1].falling), (8, false));
    assert!(!st.active);
}
