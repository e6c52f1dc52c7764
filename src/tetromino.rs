use vstd::prelude::*;

use rand::Rng;
use rand_chacha::ChaCha8Rng;

use crate::block::{rows_view, Block};
use crate::constants::{HCELL_COUNT, TETRIMINO_SIZE, VCELL_COUNT};
use crate::game_state::{board_can_place, GameState};
use crate::utils::bits_occupied;

verus! {

/// rand_chacha's `ChaCha8Rng`, the generator that new shapes are drawn from; it is only
/// carried through.
#[verifier::external_type_specification]
#[verifier::external_body]
pub struct ExChaCha8Rng(ChaCha8Rng);

/// Relies on rand's `Rng::random_range`: on the inclusive range `0..=1` it returns 0 or 1.
#[verifier::external_body]
fn random_shape_index(random: &mut ChaCha8Rng) -> (r: u8)
    ensures
        r <= 1,
{
    random.random_range(0..=1u8)
}

/// The blocks of a vertical line whose cells stand in `column`, rows 0 to 3.
pub open spec fn line_blocks(column: usize) -> Seq<Block> {
    seq![
        Block { row: 0, column, local_row: 0, local_column: 0 },
        Block { row: 0, column, local_row: 1, local_column: 0 },
        Block { row: 0, column, local_row: 2, local_column: 0 },
        Block { row: 0, column, local_row: 3, local_column: 0 },
    ]
}

/// The blocks of a square whose cells stand in columns `column` and `column + 1`, rows 0
/// and 1.
pub open spec fn square_blocks(column: usize) -> Seq<Block> {
    seq![
        Block { row: 0, column, local_row: 0, local_column: 0 },
        Block { row: 0, column, local_row: 0, local_column: 1 },
        Block { row: 0, column, local_row: 1, local_column: 0 },
        Block { row: 0, column, local_row: 1, local_column: 1 },
    ]
}

pub fn line(column: usize) -> (r: Vec<Block>)
    ensures
        r@ == line_blocks(column),
{
    let r = vec![
        Block::new(0, column, 0, 0),
        Block::new(0, column, 1, 0),
        Block::new(0, column, 2, 0),
        Block::new(0, column, 3, 0),
    ];
    assert(r@ =~= line_blocks(column));
    r
}

pub fn square(column: usize) -> (r: Vec<Block>)
    ensures
        r@ == square_blocks(column),
{
    let r = vec![
        Block::new(0, column, 0, 0),
        Block::new(0, column, 0, 1),
        Block::new(0, column, 1, 0),
        Block::new(0, column, 1, 1),
    ];
    assert(r@ =~= square_blocks(column));
    r
}

fn create_line(column: usize) -> (r: (usize, Vec<Block>))
    ensures
        r.0 == 4,
        r.1@ == line_blocks(column),
{
    (4, line(column))
}

fn create_square(column: usize) -> (r: (usize, Vec<Block>))
    ensures
        r.0 == 2,
        r.1@ == square_blocks(column),
{
    (2, square(column))
}

/// The shape numbered `shape`: 0 is the line, 1 the square; with the side of its bounding
/// square.
pub fn create_shape(shape: u8, column: usize) -> (r: (usize, Vec<Block>))
    requires
        shape <= 1,
    ensures
        shape == 0 ==> r.0 == 4 && r.1@ == line_blocks(column),
        shape == 1 ==> r.0 == 2 && r.1@ == square_blocks(column),
{
    if shape == 0 {
        create_line(column)
    } else {
        create_square(column)
    }
}

/// A shape drawn from `random`, each supported shape being possible.
pub fn create_new_shape(random: &mut ChaCha8Rng, column: usize) -> (r: (usize, Vec<Block>))
    ensures
        (r.0 == 4 && r.1@ == line_blocks(column)) || (r.0 == 2 && r.1@ == square_blocks(column)),
{
    let shape = random_shape_index(random);
    create_shape(shape, column)
}

/// The block's cell is on the board and its offset inside the bounding square of side
/// `size`.
pub open spec fn block_fits(b: Block, size: usize) -> bool {
    b.wf() && b.local_row < size && b.local_column < size
}

/// The cell below the block is on the board and free.
pub open spec fn block_can_fall(board: Seq<u32>, b: Block) -> bool {
    board_can_place(board, b.cell_row() + 1, b.cell_column() as usize)
}

/// The cell left of the block is on the board and free.
pub open spec fn block_can_move_left(board: Seq<u32>, b: Block) -> bool {
    b.cell_column() > 0 && !bits_occupied(board[b.cell_row()], (b.cell_column() - 1) as usize)
}

/// The cell right of the block is on the board and free.
pub open spec fn block_can_move_right(board: Seq<u32>, b: Block) -> bool {
    b.cell_column() + 1 < HCELL_COUNT && !bits_occupied(
        board[b.cell_row()],
        (b.cell_column() + 1) as usize,
    )
}

/// Every block can fall by one row.
pub open spec fn piece_can_fall(board: Seq<u32>, blocks: Seq<Block>) -> bool {
    forall|i: int| 0 <= i < blocks.len() ==> block_can_fall(board, #[trigger] blocks[i])
}

/// Every block can move one column to the left.
pub open spec fn piece_can_move_left(board: Seq<u32>, blocks: Seq<Block>) -> bool {
    forall|i: int| 0 <= i < blocks.len() ==> block_can_move_left(board, #[trigger] blocks[i])
}

/// Every block can move one column to the right.
pub open spec fn piece_can_move_right(board: Seq<u32>, blocks: Seq<Block>) -> bool {
    forall|i: int| 0 <= i < blocks.len() ==> block_can_move_right(board, #[trigger] blocks[i])
}

/// Every block stays on the board after a quarter turn inside the bounding square.
pub open spec fn piece_can_rotate(blocks: Seq<Block>, size: usize) -> bool {
    forall|i: int| 0 <= i < blocks.len() ==> (#[trigger] blocks[i]).rotated(size as int).wf()
}

/// The blocks one row lower.
pub open spec fn blocks_fallen(blocks: Seq<Block>) -> Seq<Block> {
    blocks.map_values(|b: Block| Block { row: (b.row + 1) as usize, ..b })
}

/// The blocks one column to the left.
pub open spec fn blocks_left(blocks: Seq<Block>) -> Seq<Block> {
    blocks.map_values(|b: Block| b.with_column(b.cell_column() - 1))
}

/// The blocks one column to the right.
pub open spec fn blocks_right(blocks: Seq<Block>) -> Seq<Block> {
    blocks.map_values(|b: Block| b.with_column(b.cell_column() + 1))
}

/// The blocks turned a quarter inside the bounding square of side `size`.
pub open spec fn blocks_rotated(blocks: Seq<Block>, size: usize) -> Seq<Block> {
    blocks.map_values(|b: Block| b.rotated(size as int))
}

/// The falling piece: its blocks and the side of its bounding square.
pub struct Tetromino {
    pub size: usize,
    pub blocks: Vec<Block>,
}

impl Tetromino {
    /// At least one block, every block on the board and inside the bounding square.
    pub open spec fn wf(&self) -> bool {
        &&& 0 < self.size <= TETRIMINO_SIZE
        &&& self.blocks@.len() > 0
        &&& forall|i: int|
            0 <= i < self.blocks@.len() ==> block_fits(#[trigger] self.blocks@[i], self.size)
    }

    pub fn new(size: usize, blocks: Vec<Block>) -> (r: Tetromino)
        ensures
            r.size == size,
            r.blocks@ == blocks@,
    {
        Tetromino { size, blocks }
    }

    /// True iff every block can fall by one row.
    pub fn can_move_next_row(&self, state: &GameState) -> (r: bool)
        requires
            self.wf(),
        ensures
            r == piece_can_fall(state@, self.blocks@),
    {
        let mut i: usize = 0;
        while i < self.blocks.len()
            invariant
                self.wf(),
                i <= self.blocks@.len(),
                forall|j: int| 0 <= j < i ==> block_can_fall(state@, #[trigger] self.blocks@[j]),
            decreases self.blocks@.len() - i,
        {
            assert(block_fits(self.blocks@[i as int], self.size));
            if !self.blocks[i].can_move_next_row(&state.rows) {
                return false;
            }
            i = i + 1;
        }
        true
    }

    /// Moves every block one row down.
    pub fn move_to_next_row(&mut self, state: &GameState)
        requires
            old(self).wf(),
            piece_can_fall(state@, old(self).blocks@),
        ensures
            final(self).wf(),
            final(self).size == old(self).size,
            final(self).blocks@ == blocks_fallen(old(self).blocks@),
    {
        let ghost blocks = self.blocks@;
        let mut i: usize = 0;
        while i < self.blocks.len()
            invariant
                0 < self.size <= TETRIMINO_SIZE,
                self.size == old(self).size,
                i <= self.blocks@.len(),
                self.blocks@.len() == blocks.len(),
                blocks == old(self).blocks@,
                forall|j: int| 0 <= j < blocks.len() ==> block_fits(#[trigger] blocks[j], self.size),
                forall|j: int| 0 <= j < blocks.len() ==> block_can_fall(state@, #[trigger] blocks[j]),
                forall|j: int| 0 <= j < i ==> #[trigger] self.blocks@[j] == blocks_fallen(blocks)[j],
                forall|j: int| i <= j < blocks.len() ==> #[trigger] self.blocks@[j] == blocks[j],
            decreases blocks.len() - i,
        {
            let mut b = self.blocks[i];
            assert(block_can_fall(state@, blocks[i as int]));
            b.move_to_next_row();
            self.blocks.set(i, b);
            i = i + 1;
        }
        assert(self.blocks@ =~= blocks_fallen(blocks));
        assert forall|j: int| 0 <= j < self.blocks@.len() implies block_fits(
            #[trigger] self.blocks@[j],
            self.size,
        ) by {
            assert(block_fits(blocks[j], self.size));
            assert(block_can_fall(state@, blocks[j]));
        }
    }

    /// True iff every block can move one column to the left.
    pub fn can_move_left(&self, state: &GameState) -> (r: bool)
        requires
            self.wf(),
        ensures
            r == piece_can_move_left(state@, self.blocks@),
    {
        let mut i: usize = 0;
        while i < self.blocks.len()
            invariant
                self.wf(),
                i <= self.blocks@.len(),
                forall|j: int| 0 <= j < i ==> block_can_move_left(state@, #[trigger] self.blocks@[j]),
            decreases self.blocks@.len() - i,
        {
            assert(block_fits(self.blocks@[i as int], self.size));
            let block = self.blocks[i];
            if !block.can_move_left(&state.rows[block.row()]) {
                return false;
            }
            i = i + 1;
        }
        true
    }

    /// True iff every block can move one column to the right.
    pub fn can_move_right(&self, state: &GameState) -> (r: bool)
        requires
            self.wf(),
        ensures
            r == piece_can_move_right(state@, self.blocks@),
    {
        let mut i: usize = 0;
        while i < self.blocks.len()
            invariant
                self.wf(),
                i <= self.blocks@.len(),
                forall|j: int| 0 <= j < i ==> block_can_move_right(state@, #[trigger] self.blocks@[j]),
            decreases self.blocks@.len() - i,
        {
            assert(block_fits(self.blocks@[i as int], self.size));
            let block = self.blocks[i];
            if !block.can_move_right(&state.rows[block.row()]) {
                return false;
            }
            i = i + 1;
        }
        true
    }

    /// True iff every block, turned a quarter, stays on the board.
    pub fn can_rotate(&self) -> (r: bool)
        requires
            self.wf(),
        ensures
            r == piece_can_rotate(self.blocks@, self.size),
    {
        let mut i: usize = 0;
        while i < self.blocks.len()
            invariant
                self.wf(),
                i <= self.blocks@.len(),
                forall|j: int| 0 <= j < i ==> (#[trigger] self.blocks@[j]).rotated(self.size as int).wf(),
            decreases self.blocks@.len() - i,
        {
            assert(block_fits(self.blocks@[i as int], self.size));
            if !self.blocks[i].can_rotate(self.size) {
                return false;
            }
            i = i + 1;
        }
        true
    }

    /// Moves the piece one column to the left if every block can go, else leaves it as it is.
    /// Returns whether it moved.
    pub fn move_left(&mut self, state: &GameState) -> (r: bool)
        requires
            old(self).wf(),
        ensures
            final(self).wf(),
            final(self).size == old(self).size,
            r == piece_can_move_left(state@, old(self).blocks@),
            r ==> final(self).blocks@ == blocks_left(old(self).blocks@),
            !r ==> final(self).blocks@ == old(self).blocks@,
    {
        if !self.can_move_left(state) {
            return false;
        }
        let ghost blocks = self.blocks@;
        let mut i: usize = 0;
        while i < self.blocks.len()
            invariant
                0 < self.size <= TETRIMINO_SIZE,
                self.size == old(self).size,
                i <= self.blocks@.len(),
                self.blocks@.len() == blocks.len(),
                blocks == old(self).blocks@,
                forall|j: int| 0 <= j < blocks.len() ==> block_fits(#[trigger] blocks[j], self.size),
                forall|j: int| 0 <= j < blocks.len() ==> block_can_move_left(state@, #[trigger] blocks[j]),
                forall|j: int| 0 <= j < i ==> #[trigger] self.blocks@[j] == blocks_left(blocks)[j],
                forall|j: int| i <= j < blocks.len() ==> #[trigger] self.blocks@[j] == blocks[j],
            decreases blocks.len() - i,
        {
            let mut b = self.blocks[i];
            assert(block_fits(blocks[i as int], self.size));
            assert(block_can_move_left(state@, blocks[i as int]));
            b.move_left();
            self.blocks.set(i, b);
            i = i + 1;
        }
        assert(self.blocks@ =~= blocks_left(blocks));
        assert forall|j: int| 0 <= j < self.blocks@.len() implies block_fits(
            #[trigger] self.blocks@[j],
            self.size,
        ) by {
            assert(block_fits(blocks[j], self.size));
            assert(block_can_move_left(state@, blocks[j]));
        }
        true
    }

    /// Moves the piece one column to the right if every block can go, else leaves it as it
    /// is. Returns whether it moved.
    pub fn move_right(&mut self, state: &GameState) -> (r: bool)
        requires
            old(self).wf(),
        ensures
            final(self).wf(),
            final(self).size == old(self).size,
            r == piece_can_move_right(state@, old(self).blocks@),
            r ==> final(self).blocks@ == blocks_right(old(self).blocks@),
            !r ==> final(self).blocks@ == old(self).blocks@,
    {
        if !self.can_move_right(state) {
            return false;
        }
        let ghost blocks = self.blocks@;
        let mut i: usize = 0;
        while i < self.blocks.len()
            invariant
                0 < self.size <= TETRIMINO_SIZE,
                self.size == old(self).size,
                i <= self.blocks@.len(),
                self.blocks@.len() == blocks.len(),
                blocks == old(self).blocks@,
                forall|j: int| 0 <= j < blocks.len() ==> block_fits(#[trigger] blocks[j], self.size),
                forall|j: int| 0 <= j < blocks.len() ==> block_can_move_right(state@, #[trigger] blocks[j]),
                forall|j: int| 0 <= j < i ==> #[trigger] self.blocks@[j] == blocks_right(blocks)[j],
                forall|j: int| i <= j < blocks.len() ==> #[trigger] self.blocks@[j] == blocks[j],
            decreases blocks.len() - i,
        {
            let mut b = self.blocks[i];
            assert(block_fits(blocks[i as int], self.size));
            assert(block_can_move_right(state@, blocks[i as int]));
            b.move_right();
            self.blocks.set(i, b);
            i = i + 1;
        }
        assert(self.blocks@ =~= blocks_right(blocks));
        assert forall|j: int| 0 <= j < self.blocks@.len() implies block_fits(
            #[trigger] self.blocks@[j],
            self.size,
        ) by {
            assert(block_fits(blocks[j], self.size));
            assert(block_can_move_right(state@, blocks[j]));
        }
        true
    }

    /// Moves the piece one row down if every block can go, else leaves it as it is. Returns
    /// whether it moved.
    pub fn move_down(&mut self, state: &GameState) -> (r: bool)
        requires
            old(self).wf(),
        ensures
            final(self).wf(),
            final(self).size == old(self).size,
            r == piece_can_fall(state@, old(self).blocks@),
            r ==> final(self).blocks@ == blocks_fallen(old(self).blocks@),
            !r ==> final(self).blocks@ == old(self).blocks@,
    {
        if !self.can_move_next_row(state) {
            return false;
        }
        self.move_to_next_row(state);
        true
    }

    /// Turns the piece a quarter inside its bounding square if every block stays on the
    /// board, else leaves it as it is. Cells already occupied on the board are not
    /// consulted. Returns whether it turned.
    pub fn rotate(&mut self) -> (r: bool)
        requires
            old(self).wf(),
        ensures
            final(self).wf(),
            final(self).size == old(self).size,
            r == piece_can_rotate(old(self).blocks@, old(self).size),
            r ==> final(self).blocks@ == blocks_rotated(old(self).blocks@, old(self).size),
            !r ==> final(self).blocks@ == old(self).blocks@,
    {
        if !self.can_rotate() {
            return false;
        }
        let ghost blocks = self.blocks@;
        let mut i: usize = 0;
        while i < self.blocks.len()
            invariant
                0 < self.size <= TETRIMINO_SIZE,
                self.size == old(self).size,
                i <= self.blocks@.len(),
                self.blocks@.len() == blocks.len(),
                blocks == old(self).blocks@,
                forall|j: int| 0 <= j < blocks.len() ==> block_fits(#[trigger] blocks[j], self.size),
                forall|j: int| 0 <= j < blocks.len() ==> (#[trigger] blocks[j]).rotated(self.size as int).wf(),
                forall|j: int| 0 <= j < i ==> #[trigger] self.blocks@[j] == blocks_rotated(blocks, self.size)[j],
                forall|j: int| i <= j < blocks.len() ==> #[trigger] self.blocks@[j] == blocks[j],
            decreases blocks.len() - i,
        {
            let mut b = self.blocks[i];
            assert(block_fits(blocks[i as int], self.size));
            b.rotate(self.size);
            self.blocks.set(i, b);
            i = i + 1;
        }
        assert(self.blocks@ =~= blocks_rotated(blocks, self.size));
        assert forall|j: int| 0 <= j < self.blocks@.len() implies block_fits(
            #[trigger] self.blocks@[j],
            self.size,
        ) by {
            assert(block_fits(blocks[j], self.size));
            assert(blocks[j].rotated(self.size as int).wf());
        }
        true
    }
}

} // verus!
