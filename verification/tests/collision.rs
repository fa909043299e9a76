use blockfall::collision::is_legal;
use blockfall::components::Block;
use blockfall::spawn::Tetrominos;

fn settled(x: i32, y: i32) -> Block {
    Block { x, y, falling: false, initialized: true, piece: Tetrominos::T, rotation: 0 }
}

fn falling(x: i32, y: i32) -> Block {
    Block { x, y, falling: true, initialized: true, piece: Tetrominos::T, rotation: 0 }
}

#[test]
fn empty_candidate_set_is_legal() {
    let cells: Vec<(i32, i32)> = vec![];
    let blocks = vec![settled(4, 0)];
    assert!(is_legal(&cells, &blocks));
}

#[test]
fn cells_inside_empty_field_are_legal() {
    let cells = vec![(0, 0), (18, 44), (8, 20)];
    let blocks: Vec<Block> = vec![];
    assert!(is_legal(&cells, &blocks));
}

#[test]
fn cell_left_of_the_wall_is_illegal() {
    let cells = vec![(8, 20), (-2, 10)];
    let blocks: Vec<Block> = vec![];
    assert!(!is_legal(&cells, &blocks));
}

#[test]
fn cell_right_of_the_wall_is_illegal() {
    let cells = vec![(20, 10)];
    let blocks: Vec<Block> = vec![];
    assert!(!is_legal(&cells, &blocks));
}

#[test]
fn rightmost_column_is_legal() {
    let cells = vec![(18, 10)];
    let blocks: Vec<Block> = vec![];
    assert!(is_legal(&cells, &blocks));
}

#[test]
fn cell_on_a_settled_block_is_illegal() {
    let cells = vec![(8, 20)];
    let blocks = vec![settled(8, 20)];
    assert!(!is_legal(&cells, &blocks));
}

#[test]
fn cell_on_a_falling_block_is_legal() {
    let cells = vec![(8, 20)];
    let blocks = vec![falling(8, 20)];
    assert!(is_legal(&cells, &blocks));
}

#[test]
fn verdict_is_deterministic_and_mutates_nothing() {
    let cells = vec![(8, 20), (10, 20)];
    let blocks = vec![settled(10, 20), falling(8, 20)];
    let first = is_legal(&cells, &blocks);
    let second = is_legal(&cells, &blocks);
    assert_eq!(first, second);
    assert!(!first);
    assert_eq!(cells, vec![(8, 20), (10, 20)]);
    assert_eq!(blocks.len(), 2);
    assert_eq!((blocks[0].x, blocks[0].y, blocks[0].falling), (10, 20, false));
    assert_eq!((blocks[1].x, blocks[1].y, blocks[1].falling), (8, 20, true));
}
