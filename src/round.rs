use vstd::prelude::*;

use rand_chacha::ChaCha8Rng;

use crate::block::Block;
use crate::constants::{SPAWN_COLUMN, TETRIMINO_SIZE, VCELL_COUNT};
use crate::countdown::{shrunk_period, Countdown, INITIAL_PERIOD_NANOS};
use crate::game_state::{board_can_place, board_clear_row, board_set, row_completed, GameState};
use crate::tetromino::{
    block_fits, blocks_fallen, blocks_left, blocks_right, blocks_rotated, create_new_shape,
    line_blocks, piece_can_fall, piece_can_move_left, piece_can_move_right, piece_can_rotate,
    square_blocks, Tetromino,
};

verus! {

/// The board after the cell of every block has been set, in order.
pub open spec fn board_set_blocks(board: Seq<u32>, blocks: Seq<Block>) -> Seq<u32>
    decreases blocks.len(),
{
    if blocks.len() == 0 {
        board
    } else {
        board_set(
            board_set_blocks(board, blocks.drop_last()),
            blocks.last().cell_row(),
            blocks.last().cell_column() as usize,
        )
    }
}

/// Some block has its cell in `row`.
pub open spec fn touches_row(blocks: Seq<Block>, row: int) -> bool {
    exists|i: int| 0 <= i < blocks.len() && (#[trigger] blocks[i]).cell_row() == row
}

/// The settled blocks after `row` is cleared: those in it go, those above it fall by one.
pub open spec fn blocks_after_clear(blocks: Seq<Block>, row: int) -> Seq<Block>
    decreases blocks.len(),
{
    if blocks.len() == 0 {
        blocks
    } else {
        let rest = blocks_after_clear(blocks.drop_last(), row);
        let b = blocks.last();
        if b.cell_row() == row {
            rest
        } else if b.cell_row() < row {
            rest.push(Block { row: (b.row + 1) as usize, ..b })
        } else {
            rest.push(b)
        }
    }
}

/// The board and the settled blocks after each of `rows`, in order, has been cleared if it
/// is completed at that point.
pub open spec fn after_line_clears(board: Seq<u32>, blocks: Seq<Block>, rows: Seq<usize>) -> (
    Seq<u32>,
    Seq<Block>,
)
    decreases rows.len(),
{
    if rows.len() == 0 {
        (board, blocks)
    } else {
        let (b, s) = after_line_clears(board, blocks, rows.drop_last());
        let row = rows.last() as int;
        if row_completed(b[row]) {
            (board_clear_row(b, row), blocks_after_clear(s, row))
        } else {
            (b, s)
        }
    }
}

/// The rows that a set of blocks touches, each once, in increasing order.
pub open spec fn is_rows_of(rows: Seq<usize>, blocks: Seq<Block>) -> bool {
    &&& forall|k: int| 0 <= k < rows.len() ==> touches_row(blocks, #[trigger] rows[k] as int)
    &&& forall|row: int| #[trigger] touches_row(blocks, row) ==> rows.contains(row as usize)
    &&& forall|k: int, l: int| 0 <= k < l < rows.len() ==> rows[k] < rows[l]
}

/// The falling piece is a freshly spawned line or square at the spawn column.
pub open spec fn is_spawned_shape(piece: Tetromino) -> bool {
    ||| piece.size == 4 && piece.blocks@ == line_blocks(SPAWN_COLUMN)
    ||| piece.size == 2 && piece.blocks@ == square_blocks(SPAWN_COLUMN)
}

/// The block's own cell is on the board and free.
pub open spec fn block_cell_free(board: Seq<u32>, b: Block) -> bool {
    board_can_place(board, b.cell_row(), b.cell_column() as usize)
}

/// A movement asked for by the player.
#[derive(Clone, Copy, Debug, PartialEq, Eq, Structural)]
pub enum Movement {
    Left,
    Right,
    Down,
}

/// The state of a round: the board, the falling piece, the blocks that have settled, and
/// the gravity scheduler.
pub struct Round {
    pub state: GameState,
    pub falling: Tetromino,
    pub settled: Vec<Block>,
    pub countdown: Countdown,
}

/// Whether `row` is touched by some block of `blocks`.
fn touches(blocks: &Vec<Block>, row: usize) -> (r: bool)
    ensures
        r == touches_row(blocks@, row as int),
{
    let mut i: usize = 0;
    while i < blocks.len()
        invariant
            i <= blocks@.len(),
            forall|j: int| 0 <= j < i ==> (#[trigger] blocks@[j]).cell_row() != row,
        decreases blocks@.len() - i,
    {
        let b = blocks[i];
        if b.local_row <= row && b.row == row - b.local_row {
            return true;
        }
        i = i + 1;
    }
    false
}

/// The rows that `blocks` touch, each once, in increasing order.
pub fn touched_rows(blocks: &Vec<Block>) -> (r: Vec<usize>)
    requires
        forall|i: int| 0 <= i < blocks@.len() ==> (#[trigger] blocks@[i]).wf(),
    ensures
        is_rows_of(r@, blocks@),
        forall|k: int| 0 <= k < r@.len() ==> r@[k] < VCELL_COUNT,
{
    let mut r: Vec<usize> = Vec::new();
    let mut row: usize = 0;
    while row < VCELL_COUNT
        invariant
            row <= VCELL_COUNT,
            forall|i: int| 0 <= i < blocks@.len() ==> (#[trigger] blocks@[i]).wf(),
            forall|k: int| 0 <= k < r@.len() ==> touches_row(blocks@, #[trigger] r@[k] as int),
            forall|k: int| 0 <= k < r@.len() ==> #[trigger] r@[k] < row,
            forall|k: int, l: int| 0 <= k < l < r@.len() ==> r@[k] < r@[l],
            forall|x: int| 0 <= x < row && #[trigger] touches_row(blocks@, x) ==> r@.contains(x as usize),
        decreases VCELL_COUNT - row,
    {
        let ghost before = r@;
        let t = touches(blocks, row);
        if t {
            r.push(row);
        }
        assert forall|x: int| 0 <= x <= row && #[trigger] touches_row(blocks@, x) implies r@.contains(
            x as usize,
        ) by {
            if x < row {
                let k = choose|k: int| 0 <= k < before.len() && before[k] == x as usize;
                assert(r@[k] == x as usize);
            } else {
                assert(r@[r@.len() - 1] == row);
            }
        }
        row = row + 1;
    }
    assert forall|x: int| #[trigger] touches_row(blocks@, x) implies r@.contains(x as usize) by {
        let i = choose|i: int| 0 <= i < blocks@.len() && (#[trigger] blocks@[i]).cell_row() == x;
        assert(blocks@[i].wf());
    }
    r
}

/// The settled blocks after `row` is cleared.
fn blocks_cleared(blocks: &Vec<Block>, row: usize) -> (r: Vec<Block>)
    requires
        row < VCELL_COUNT,
        forall|i: int| 0 <= i < blocks@.len() ==> (#[trigger] blocks@[i]).wf(),
    ensures
        r@ == blocks_after_clear(blocks@, row as int),
        forall|i: int| 0 <= i < r@.len() ==> (#[trigger] r@[i]).wf(),
{
    let mut r: Vec<Block> = Vec::new();
    let mut i: usize = 0;
    while i < blocks.len()
        invariant
            row < VCELL_COUNT,
            i <= blocks@.len(),
            forall|j: int| 0 <= j < blocks@.len() ==> (#[trigger] blocks@[j]).wf(),
            r@ == blocks_after_clear(blocks@.take(i as int), row as int),
            forall|j: int| 0 <= j < r@.len() ==> (#[trigger] r@[j]).wf(),
        decreases blocks@.len() - i,
    {
        assert(blocks@.take(i + 1).drop_last() =~= blocks@.take(i as int));
        assert(blocks@.take(i + 1).last() == blocks@[i as int]);
        let mut b = blocks[i];
        assert(b.wf());
        let b_row = b.row();
        if b_row == row {
        } else if b_row < row {
            b.move_to_next_row();
            r.push(b);
        } else {
            r.push(b);
        }
        i = i + 1;
    }
    assert(blocks@.take(blocks@.len() as int) =~= blocks@);
    r
}

impl Round {
    /// The falling piece and every settled block are on the board, and the scheduler's
    /// period lies above its floor.
    pub open spec fn wf(&self) -> bool {
        &&& self.falling.wf()
        &&& forall|i: int| 0 <= i < self.settled@.len() ==> (#[trigger] self.settled@[i]).wf()
        &&& self.countdown.wf()
    }

    /// Replaces the falling piece with a new one of bounding side `size` made of `blocks`.
    pub fn spawn_tetromino(&mut self, size: usize, blocks: Vec<Block>)
        requires
            old(self).wf(),
            0 < size <= TETRIMINO_SIZE,
            blocks@.len() > 0,
            forall|i: int| 0 <= i < blocks@.len() ==> block_fits(#[trigger] blocks@[i], size),
        ensures
            final(self).wf(),
            final(self).falling.size == size,
            final(self).falling.blocks@ == blocks@,
            final(self).state@ == old(self).state@,
            final(self).settled@ == old(self).settled@,
            final(self).countdown.period_nanos == old(self).countdown.period_nanos,
    {
        self.falling = Tetromino::new(size, blocks);
    }

    /// Clears each completed row of `rows`, in the order given: its settled blocks go, the
    /// settled blocks above it fall by one, and the board's rows above it fall by one. Then
    /// the gravity period shrinks.
    pub fn on_tetromino_reached_bottom(&mut self, rows: &Vec<usize>)
        requires
            old(self).wf(),
            forall|k: int| 0 <= k < rows@.len() ==> #[trigger] rows@[k] < VCELL_COUNT,
        ensures
            final(self).wf(),
            (final(self).state@, final(self).settled@) == after_line_clears(
                old(self).state@,
                old(self).settled@,
                rows@,
            ),
            final(self).falling == old(self).falling,
            final(self).countdown.period_nanos == shrunk_period(old(self).countdown.period_nanos),
    {
        let mut i: usize = 0;
        while i < rows.len()
            invariant
                self.wf(),
                i <= rows@.len(),
                forall|k: int| 0 <= k < rows@.len() ==> #[trigger] rows@[k] < VCELL_COUNT,
                self.state@.len() == VCELL_COUNT,
                (self.state@, self.settled@) == after_line_clears(
                    old(self).state@,
                    old(self).settled@,
                    rows@.take(i as int),
                ),
                self.falling == old(self).falling,
                self.countdown == old(self).countdown,
            decreases rows@.len() - i,
        {
            assert(rows@.take(i + 1).drop_last() =~= rows@.take(i as int));
            assert(rows@.take(i + 1).last() == rows@[i as int]);
            let idx = rows[i];
            if self.state.row_is_completed(idx) {
                self.settled = blocks_cleared(&self.settled, idx);
                self.state.clear_row(idx);
            }
            i = i + 1;
        }
        assert(rows@.take(rows@.len() as int) =~= rows@);
        self.countdown.on_tetromino_reached_bottom();
    }

    /// The board and settled blocks once the falling piece locks and `rows` are treated.
    pub open spec fn after_lock(self, rows: Seq<usize>) -> (Seq<u32>, Seq<Block>) {
        after_line_clears(
            board_set_blocks(self.state@, self.falling.blocks@),
            self.settled@ + self.falling.blocks@,
            rows,
        )
    }

    /// Every block of the falling piece can fall by one row.
    pub open spec fn falling_can_fall(self) -> bool {
        piece_can_fall(self.state@, self.falling.blocks@)
    }

    /// A new round: an empty board, no settled block, the initial period, and a random
    /// shape at the spawn column.
    pub fn new(random: &mut ChaCha8Rng) -> (r: Round)
        ensures
            r.wf(),
            r.state@ == Seq::new(VCELL_COUNT as nat, |i: int| 0u32),
            r.settled@.len() == 0,
            r.countdown.period_nanos == INITIAL_PERIOD_NANOS,
            is_spawned_shape(r.falling),
    {
        let (size, blocks) = create_new_shape(random, SPAWN_COLUMN);
        proof {
            lemma_spawned_shape_fits(size, blocks@);
        }
        Round {
            state: GameState::new(),
            falling: Tetromino::new(size, blocks),
            settled: Vec::new(),
            countdown: Countdown::new(),
        }
    }

    /// Locks the falling piece: its cells are set on the board and its blocks settle; the
    /// rows it touched are treated as `on_tetromino_reached_bottom` does; then a random
    /// shape spawns. Returns the rows the piece touched, in increasing order.
    pub fn on_tetromino_stopped(&mut self, random: &mut ChaCha8Rng) -> (r: Vec<usize>)
        requires
            old(self).wf(),
        ensures
            final(self).wf(),
            is_rows_of(r@, old(self).falling.blocks@),
            (final(self).state@, final(self).settled@) == old(self).after_lock(r@),
            final(self).countdown.period_nanos == shrunk_period(old(self).countdown.period_nanos),
            is_spawned_shape(final(self).falling),
    {
        let ghost blocks = self.falling.blocks@;
        let ghost board = self.state@;
        let ghost settled = self.settled@;
        let mut i: usize = 0;
        while i < self.falling.blocks.len()
            invariant
                self.wf(),
                self.falling == old(self).falling,
                self.countdown == old(self).countdown,
                blocks == self.falling.blocks@,
                i <= blocks.len(),
                self.state@ == board_set_blocks(board, blocks.take(i as int)),
                self.settled@ == settled + blocks.take(i as int),
            decreases blocks.len() - i,
        {
            assert(blocks.take(i + 1).drop_last() =~= blocks.take(i as int));
            assert(blocks.take(i + 1).last() == blocks[i as int]);
            let b = self.falling.blocks[i];
            assert(block_fits(blocks[i as int], self.falling.size));
            self.state.set(&b);
            self.settled.push(b);
            assert(self.settled@ =~= settled + blocks.take(i + 1));
            i = i + 1;
        }
        assert(blocks.take(blocks.len() as int) =~= blocks);
        assert forall|j: int| 0 <= j < blocks.len() implies (#[trigger] blocks[j]).wf() by {
            assert(block_fits(blocks[j], self.falling.size));
        }
        let rows = touched_rows(&self.falling.blocks);
        self.on_tetromino_reached_bottom(&rows);
        let (size, new_blocks) = create_new_shape(random, SPAWN_COLUMN);
        proof {
            lemma_spawned_shape_fits(size, new_blocks@);
        }
        self.spawn_tetromino(size, new_blocks);
        rows
    }

    /// One gravity tick: the falling piece falls by one row if every block can, else it
    /// locks as `on_tetromino_stopped` does and the rows it touched are returned.
    pub fn on_countdown_tick(&mut self, random: &mut ChaCha8Rng) -> (r: Option<Vec<usize>>)
        requires
            old(self).wf(),
        ensures
            final(self).wf(),
            r.is_none() == old(self).falling_can_fall(),
            match r {
                None => {
                    &&& final(self).falling.size == old(self).falling.size
                    &&& final(self).falling.blocks@ == blocks_fallen(old(self).falling.blocks@)
                    &&& final(self).state@ == old(self).state@
                    &&& final(self).settled@ == old(self).settled@
                    &&& final(self).countdown.period_nanos == old(self).countdown.period_nanos
                },
                Some(rows) => {
                    &&& is_rows_of(rows@, old(self).falling.blocks@)
                    &&& (final(self).state@, final(self).settled@) == old(self).after_lock(rows@)
                    &&& final(self).countdown.period_nanos == shrunk_period(
                        old(self).countdown.period_nanos,
                    )
                    &&& is_spawned_shape(final(self).falling)
                },
            },
    {
        if self.falling.can_move_next_row(&self.state) {
            self.falling.move_to_next_row(&self.state);
            None
        } else {
            Some(self.on_tetromino_stopped(random))
        }
    }

    /// Applies a movement of the player to the falling piece, all blocks or none. Returns
    /// whether the piece moved.
    pub fn handle_user_input(&mut self, movement: Movement) -> (r: bool)
        requires
            old(self).wf(),
        ensures
            final(self).wf(),
            final(self).falling.size == old(self).falling.size,
            final(self).state@ == old(self).state@,
            final(self).settled@ == old(self).settled@,
            final(self).countdown.period_nanos == old(self).countdown.period_nanos,
            !r ==> final(self).falling.blocks@ == old(self).falling.blocks@,
            movement == Movement::Left ==> {
                &&& r == piece_can_move_left(old(self).state@, old(self).falling.blocks@)
                &&& r ==> final(self).falling.blocks@ == blocks_left(old(self).falling.blocks@)
            },
            movement == Movement::Right ==> {
                &&& r == piece_can_move_right(old(self).state@, old(self).falling.blocks@)
                &&& r ==> final(self).falling.blocks@ == blocks_right(old(self).falling.blocks@)
            },
            movement == Movement::Down ==> {
                &&& r == old(self).falling_can_fall()
                &&& r ==> final(self).falling.blocks@ == blocks_fallen(old(self).falling.blocks@)
            },
    {
        match movement {
            Movement::Left => self.falling.move_left(&self.state),
            Movement::Right => self.falling.move_right(&self.state),
            Movement::Down => self.falling.move_down(&self.state),
        }
    }

    /// Turns the falling piece a quarter if every block stays on the board. Returns whether
    /// it turned.
    pub fn rotate_tetromino(&mut self) -> (r: bool)
        requires
            old(self).wf(),
        ensures
            final(self).wf(),
            final(self).falling.size == old(self).falling.size,
            final(self).state@ == old(self).state@,
            final(self).settled@ == old(self).settled@,
            final(self).countdown.period_nanos == old(self).countdown.period_nanos,
            r == piece_can_rotate(old(self).falling.blocks@, old(self).falling.size),
            r ==> final(self).falling.blocks@ == blocks_rotated(old(self).falling.blocks@, old(self).falling.size),
            !r ==> final(self).falling.blocks@ == old(self).falling.blocks@,
    {
        self.falling.rotate()
    }

    /// True iff some cell of the falling piece is already occupied on the board: the round
    /// cannot go on.
    pub fn is_topped_out(&self) -> (r: bool)
        requires
            self.wf(),
        ensures
            r == exists|i: int|
                0 <= i < self.falling.blocks@.len() && !block_cell_free(
                    self.state@,
                    #[trigger] self.falling.blocks@[i],
                ),
    {
        let mut i: usize = 0;
        while i < self.falling.blocks.len()
            invariant
                self.wf(),
                i <= self.falling.blocks@.len(),
                forall|j: int| 0 <= j < i ==> block_cell_free(self.state@, #[trigger] self.falling.blocks@[j]),
            decreases self.falling.blocks@.len() - i,
        {
            let b = self.falling.blocks[i];
            assert(block_fits(self.falling.blocks@[i as int], self.falling.size));
            if !self.state.can_place(b.row(), b.column()) {
                return true;
            }
            i = i + 1;
        }
        false
    }
}

/// Both spawned shapes fit their bounding square and lie on the board.
proof fn lemma_spawned_shape_fits(size: usize, blocks: Seq<Block>)
    requires
        (size == 4 && blocks == line_blocks(SPAWN_COLUMN)) || (size == 2 && blocks == square_blocks(SPAWN_COLUMN)),
    ensures
        0 < size <= TETRIMINO_SIZE,
        blocks.len() > 0,
        forall|i: int| 0 <= i < blocks.len() ==> block_fits(#[trigger] blocks[i], size),
{
}

} // verus!
