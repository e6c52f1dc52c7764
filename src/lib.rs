//! The simulation core of a falling-block puzzle: the board of row bitmasks, the falling
//! piece with its moves and quarter turns, line clearing, and the gravity scheduler.

pub mod constants;
pub mod utils;
pub mod game_state;
pub mod block;
pub mod tetromino;
pub mod countdown;
pub mod scene;
pub mod round;
