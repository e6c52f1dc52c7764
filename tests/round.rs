use rand::SeedableRng;
use rand_chacha::ChaCha8Rng;

use tetris_core::block::Block;
use tetris_core::constants::{HCELL_COUNT, SPAWN_COLUMN, VCELL_COUNT};
use tetris_core::countdown::{Countdown, INITIAL_PERIOD_NANOS, MIN_PERIOD_NANOS};
use tetris_core::game_state::GameState;
use tetris_core::round::{touched_rows, Movement, Round};
use tetris_core::scene::{is_running, pause, toggle_debug_view, GameScene};
use tetris_core::tetromino;
use tetris_core::tetromino::{create_new_shape, square, Tetromino};

fn round_with(piece: Tetromino) -> Round {
    Round {
        state: GameState::new(),
        falling: piece,
        settled: Vec::new(),
        countdown: Countdown::new(),
    }
}

fn is_spawned(piece: &Tetromino) -> bool {
    (piece.size == 4 && piece.blocks == tetromino::line(SPAWN_COLUMN))
        || (piece.size == 2 && piece.blocks == square(SPAWN_COLUMN))
}

#[test]
fn line_piece_falls_and_locks_at_the_bottom() {
    let mut rng = ChaCha8Rng::seed_from_u64(7);
    let mut round = round_with(Tetromino::new(4, tetromino::line(5)));
    let mut locks = Vec::new();
    for tick in 1..=20 {
        if let Some(rows) = round.on_countdown_tick(&mut rng) {
            locks.push((tick, rows));
        }
    }
    assert_eq!(locks, vec![(18, vec![17, 18, 19, 20])]);
    for row in 17..=20 {
        assert!(round.state.occupied(row, 5));
        assert!(!round.state.row_is_completed(row));
        for column in 0..HCELL_COUNT {
            if column != 5 {
                assert!(!round.state.occupied(row, column));
            }
        }
    }
    let settled: Vec<(usize, usize)> = round.settled.iter().map(|b| (b.row(), b.column())).collect();
    assert_eq!(settled, vec![(17, 5), (18, 5), (19, 5), (20, 5)]);
    assert!(round.falling.blocks.iter().all(|b| b.row() <= 3 + 2));
}

#[test]
fn completed_row_is_cleared_on_lock() {
    let mut rng = ChaCha8Rng::seed_from_u64(11);
    let mut round = round_with(Tetromino::new(1, vec![Block::new(19, 3, 0, 0)]));
    for column in 0..HCELL_COUNT {
        if column != 3 {
            round.state.set_cell(19, column);
        }
    }
    round.state.set_cell(10, 0);
    round.settled.push(Block::new(10, 0, 0, 0));
    round.state.set_cell(20, 4);
    round.settled.push(Block::new(20, 4, 0, 0));

    let rows = round.on_tetromino_stopped(&mut rng);
    assert_eq!(rows, vec![19]);
    assert_eq!(round.state.row_bits(0), 0);
    assert!(!round.state.row_is_completed(19));
    assert_eq!(round.state.row_bits(19), 0);
    assert!(round.state.occupied(11, 0));
    assert!(!round.state.occupied(10, 0));
    assert!(round.state.occupied(20, 4));
    let settled: Vec<(usize, usize)> = round.settled.iter().map(|b| (b.row(), b.column())).collect();
    assert_eq!(settled, vec![(11, 0), (20, 4)]);
    assert!(is_spawned(&round.falling));
    assert!(round.countdown.period_nanos() < INITIAL_PERIOD_NANOS);
}

#[test]
fn two_completed_rows_are_both_cleared() {
    let mut rng = ChaCha8Rng::seed_from_u64(3);
    let piece = Tetromino::new(2, vec![Block::new(19, 0, 0, 0), Block::new(19, 0, 1, 0)]);
    let mut round = round_with(piece);
    for row in [19usize, 20] {
        for column in 1..HCELL_COUNT {
            round.state.set_cell(row, column);
        }
    }
    round.state.set_cell(18, 7);
    round.settled.push(Block::new(18, 7, 0, 0));
    assert_eq!(round.on_countdown_tick(&mut rng), Some(vec![19, 20]));
    for row in 0..VCELL_COUNT {
        if row != 20 {
            assert_eq!(round.state.row_bits(row), 0);
        }
    }
    assert!(round.state.occupied(20, 7));
    let settled: Vec<(usize, usize)> = round.settled.iter().map(|b| (b.row(), b.column())).collect();
    assert_eq!(settled, vec![(20, 7)]);
}

#[test]
fn user_input_moves_the_piece() {
    let mut round = round_with(Tetromino::new(2, square(5)));
    assert!(round.handle_user_input(Movement::Left));
    assert!(round.handle_user_input(Movement::Down));
    let cells: Vec<(usize, usize)> = round.falling.blocks.iter().map(|b| (b.row(), b.column())).collect();
    assert_eq!(cells, vec![(1, 4), (1, 5), (2, 4), (2, 5)]);
    for _ in 0..4 {
        assert!(round.handle_user_input(Movement::Right));
    }
    assert!(!round.handle_user_input(Movement::Right));
    assert_eq!(round.falling.blocks[1].column(), 9);
    assert!(round.rotate_tetromino());
}

#[test]
fn soft_drop_does_not_lock() {
    let mut round = round_with(Tetromino::new(1, vec![Block::new(20, 0, 0, 0)]));
    assert!(!round.handle_user_input(Movement::Down));
    assert_eq!(round.falling.blocks[0].row(), 20);
    assert!(round.settled.is_empty());
    assert!(!round.state.occupied(20, 0));
}

#[test]
fn topped_out_when_spawn_cells_are_taken() {
    let mut round = round_with(Tetromino::new(4, tetromino::line(5)));
    assert!(!round.is_topped_out());
    round.state.set_cell(2, 5);
    assert!(round.is_topped_out());
}

#[test]
fn new_round_is_empty_with_a_spawned_shape() {
    let mut rng = ChaCha8Rng::seed_from_u64(1);
    let round = Round::new(&mut rng);
    assert!(round.settled.is_empty());
    assert_eq!(round.countdown.period_nanos(), INITIAL_PERIOD_NANOS);
    assert!(is_spawned(&round.falling));
    for row in 0..VCELL_COUNT {
        assert_eq!(round.state.row_bits(row), 0);
    }
}

#[test]
fn random_shapes_cover_both_kinds() {
    let mut rng = ChaCha8Rng::seed_from_u64(42);
    let mut lines = 0;
    let mut squares = 0;
    for _ in 0..64 {
        let (size, blocks) = create_new_shape(&mut rng, SPAWN_COLUMN);
        if size == 4 {
            assert_eq!(blocks, tetromino::line(SPAWN_COLUMN));
            lines += 1;
        } else {
            assert_eq!(size, 2);
            assert_eq!(blocks, square(SPAWN_COLUMN));
            squares += 1;
        }
    }
    assert!(lines > 0);
    assert!(squares > 0);
}

#[test]
fn touched_rows_are_distinct_and_sorted() {
    let blocks = vec![
        Block::new(5, 0, 1, 0),
        Block::new(3, 0, 0, 0),
        Block::new(5, 1, 1, 0),
        Block::new(4, 0, 0, 0),
    ];
    assert_eq!(touched_rows(&blocks), vec![3, 4, 6]);
}

#[test]
fn period_after_five_locks() {
    let mut countdown = Countdown::default();
    assert_eq!(countdown.period_nanos(), 700_000_000);
    for _ in 0..5 {
        countdown.on_tetromino_reached_bottom();
    }
    assert_eq!(countdown.period_nanos(), 413_343_000);
}

#[test]
fn period_never_reaches_the_floor() {
    let mut countdown = Countdown::new();
    let mut previous = countdown.period_nanos();
    for _ in 0..200 {
        countdown.on_tetromino_reached_bottom();
        assert!(countdown.period_nanos() > MIN_PERIOD_NANOS);
        assert!(countdown.period_nanos() <= previous);
        previous = countdown.period_nanos();
    }
    countdown.on_tetromino_reached_bottom();
    assert_eq!(countdown.period_nanos(), previous);
    assert!(previous < 112_000_000);
}

#[test]
fn scene_transitions() {
    assert_eq!(GameScene::default(), GameScene::Game);
    assert_eq!(toggle_debug_view(GameScene::Game), GameScene::DebugView);
    assert_eq!(toggle_debug_view(GameScene::DebugView), GameScene::Game);
    assert_eq!(toggle_debug_view(GameScene::Pause), GameScene::Pause);
    assert_eq!(pause(GameScene::Game), GameScene::Pause);
    assert_eq!(pause(GameScene::Pause), GameScene::Game);
    assert_eq!(pause(GameScene::DebugView), GameScene::Pause);
    assert!(is_running(GameScene::Game));
    assert!(is_running(GameScene::DebugView));
    assert!(!is_running(GameScene::Pause));
}
