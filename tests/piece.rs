use tetris_core::block::Block;
use tetris_core::game_state::GameState;
use tetris_core::tetromino;
use tetris_core::tetromino::{create_shape, square, Tetromino};

fn cells(piece: &Tetromino) -> Vec<(usize, usize)> {
    piece.blocks.iter().map(|b| (b.row(), b.column())).collect()
}

#[test]
fn block_cell_is_anchor_plus_offset() {
    let b = Block::new(3, 4, 1, 2);
    assert_eq!(b.row(), 4);
    assert_eq!(b.column(), 6);
}

#[test]
fn set_column_clamps_at_the_left_wall() {
    let mut b = Block::new(0, 0, 0, 2);
    b.set_column(1);
    assert_eq!(b.column(), 1);
    assert_eq!(b.column, 0);
    assert_eq!(b.local_column, 1);

    let mut c = Block::new(0, 3, 0, 2);
    c.set_column(4);
    assert_eq!(c.column, 2);
    assert_eq!(c.local_column, 2);
}

#[test]
fn block_moves_and_walls() {
    let state = GameState::new();
    let mut b = Block::new(5, 0, 0, 0);
    assert!(!b.can_move_left(&state.rows[5]));
    assert!(b.can_move_right(&state.rows[5]));
    b.move_right();
    assert_eq!(b.column(), 1);
    b.move_left();
    assert_eq!(b.column(), 0);

    let r = Block::new(5, 9, 0, 0);
    assert!(!r.can_move_right(&state.rows[5]));

    let mut d = Block::new(19, 2, 0, 0);
    assert!(d.can_move_next_row(&state.rows));
    d.move_to_next_row();
    assert_eq!(d.row(), 20);
    assert!(!d.can_move_next_row(&state.rows));
}

#[test]
fn block_set_occupies_its_cell() {
    let mut state = GameState::new();
    let b = Block::new(7, 2, 1, 1);
    b.set(&mut state.rows);
    assert!(state.occupied(8, 3));
    state.set(&Block::new(0, 0, 0, 0));
    assert!(state.occupied(0, 0));
}

#[test]
fn move_left_is_all_or_nothing() {
    let mut state = GameState::new();
    state.set_cell(11, 3);
    let mut piece = Tetromino::new(2, vec![Block::new(10, 4, 0, 0), Block::new(10, 4, 1, 0)]);
    assert!(!piece.can_move_left(&state));
    assert!(!piece.move_left(&state));
    assert_eq!(cells(&piece), vec![(10, 4), (11, 4)]);

    let free = GameState::new();
    assert!(piece.move_left(&free));
    assert_eq!(cells(&piece), vec![(10, 3), (11, 3)]);
}

#[test]
fn move_right_is_all_or_nothing() {
    let mut state = GameState::new();
    state.set_cell(10, 5);
    let mut piece = Tetromino::new(2, vec![Block::new(10, 4, 0, 0), Block::new(10, 4, 1, 0)]);
    assert!(!piece.move_right(&state));
    assert_eq!(cells(&piece), vec![(10, 4), (11, 4)]);
    let free = GameState::new();
    assert!(piece.move_right(&free));
    assert_eq!(cells(&piece), vec![(10, 5), (11, 5)]);
}

#[test]
fn move_down_stops_on_occupancy() {
    let mut state = GameState::new();
    state.set_cell(12, 4);
    let mut piece = Tetromino::new(2, vec![Block::new(10, 4, 0, 0), Block::new(10, 4, 1, 0)]);
    assert!(!piece.move_down(&state));
    assert_eq!(cells(&piece), vec![(10, 4), (11, 4)]);
    state.clear_row(12);
    assert!(piece.move_down(&state));
    assert_eq!(cells(&piece), vec![(11, 4), (12, 4)]);
}

#[test]
fn block_rotation_four_times_is_identity() {
    for size in [2usize, 4] {
        for local_row in 0..size {
            for local_column in 0..size {
                let original = Block::new(3, 2, local_row, local_column);
                let mut b = original;
                for _ in 0..4 {
                    b.rotate(size);
                }
                assert_eq!(b, original);
            }
        }
    }
}

#[test]
fn block_rotation_transform() {
    let mut b = Block::new(0, 5, 1, 0);
    b.rotate(4);
    assert_eq!((b.local_row, b.local_column), (0, 2));
    b.rotate(4);
    assert_eq!((b.local_row, b.local_column), (2, 3));
}

#[test]
fn line_rotates_to_horizontal() {
    let mut piece = Tetromino::new(4, tetromino::line(5));
    assert!(piece.rotate());
    assert_eq!(cells(&piece), vec![(0, 8), (0, 7), (0, 6), (0, 5)]);
    for _ in 0..3 {
        assert!(piece.rotate());
    }
    assert_eq!(cells(&piece), vec![(0, 5), (1, 5), (2, 5), (3, 5)]);
}

#[test]
fn rotation_is_refused_at_the_right_wall() {
    let mut piece = Tetromino::new(4, tetromino::line(7));
    assert!(!piece.can_rotate());
    assert!(!piece.rotate());
    assert_eq!(cells(&piece), vec![(0, 7), (1, 7), (2, 7), (3, 7)]);
}

#[test]
fn rotation_ignores_occupancy() {
    let mut state = GameState::new();
    state.set_cell(0, 8);
    let mut piece = Tetromino::new(4, tetromino::line(5));
    assert!(piece.rotate());
    assert!(state.occupied(0, 8));
    assert_eq!(cells(&piece)[0], (0, 8));
}

#[test]
fn shapes_have_their_cells() {
    let l: Vec<(usize, usize)> = tetromino::line(5).iter().map(|b| (b.row(), b.column())).collect();
    assert_eq!(l, vec![(0, 5), (1, 5), (2, 5), (3, 5)]);
    let s: Vec<(usize, usize)> = square(5).iter().map(|b| (b.row(), b.column())).collect();
    assert_eq!(s, vec![(0, 5), (0, 6), (1, 5), (1, 6)]);
    let (size, blocks) = create_shape(0, 2);
    assert_eq!(size, 4);
    assert_eq!(blocks, tetromino::line(2));
    let (size, blocks) = create_shape(1, 2);
    assert_eq!(size, 2);
    assert_eq!(blocks, square(2));
}

#[test]
fn set_row_keeps_the_offset() {
    let mut b = Block::new(0, 4, 2, 1);
    b.set_row(10);
    assert_eq!(b.row(), 10);
    assert_eq!(b.row, 8);
    assert_eq!(b.local_row, 2);
    let mut state = GameState::new();
    assert!(b.can_move(&state.rows[10]));
    state.set_cell(10, 5);
    assert!(!b.can_move(&state.rows[10]));
}
