use vstd::prelude::*;

use crate::block::Block;
use crate::constants::{HCELL_COUNT, VCELL_COUNT};
use crate::utils::{
    bits_occupied, column_mask, column_to_bit_mask, lemma_set_bits_occupied, lemma_zero_bits_free,
};

verus! {

/// A row is completed when every column of it is occupied.
pub open spec fn row_completed(bits: u32) -> bool {
    forall|c: usize| c < HCELL_COUNT ==> #[trigger] bits_occupied(bits, c)
}

/// The row bitmask after the cells of `columns` have been set one after the other.
pub open spec fn fill_columns(bits: u32, columns: Seq<usize>) -> u32
    decreases columns.len(),
{
    if columns.len() == 0 {
        bits
    } else {
        fill_columns(bits | column_mask(columns[0]), columns.drop_first())
    }
}

/// The board with the cell at (`row`, `column`) set.
pub open spec fn board_set(board: Seq<u32>, row: int, column: usize) -> Seq<u32> {
    board.update(row, board[row] | column_mask(column))
}

/// The board after `row` is removed: the rows above it fall by one and row 0 is empty.
pub open spec fn board_clear_row(board: Seq<u32>, row: int) -> Seq<u32> {
    Seq::new(
        board.len(),
        |i: int|
            if i == 0 {
                0u32
            } else if i <= row {
                board[i - 1]
            } else {
                board[i]
            },
    )
}

/// True iff (`row`, `column`) lies on the board and its cell is empty.
pub open spec fn board_can_place(board: Seq<u32>, row: int, column: usize) -> bool {
    0 <= row < board.len() && !bits_occupied(board[row], column)
}

/// One row of the board: a bitmask with a group of bits for each column.
#[derive(Clone, Copy)]
pub struct Row(u32);

impl View for Row {
    type V = u32;

    closed spec fn view(&self) -> u32 {
        self.0
    }
}

impl Row {
    /// An empty row.
    pub fn empty() -> (r: Row)
        ensures
            r@ == 0,
    {
        Row(0)
    }

    /// The raw bitmask of the row.
    pub fn bits(&self) -> (r: u32)
        ensures
            r == self@,
    {
        self.0
    }

    /// True iff the cell of `column` is free.
    pub fn can_move(&self, column: usize) -> (r: bool)
        requires
            column < HCELL_COUNT,
        ensures
            r == !bits_occupied(self@, column),
    {
        (self.0 & column_to_bit_mask(column)) == 0
    }

    /// Marks the cell of `column` as occupied.
    pub fn set(&mut self, column: usize)
        requires
            column < HCELL_COUNT,
        ensures
            final(self)@ == old(self)@ | column_mask(column),
    {
        self.0 = self.0 | column_to_bit_mask(column);
    }

    /// True iff the cell of `column` is occupied.
    pub fn occupied(&self, column: usize) -> (r: bool)
        requires
            column < HCELL_COUNT,
        ensures
            r == bits_occupied(self@, column),
    {
        self.0 & column_to_bit_mask(column) != 0
    }

    /// True iff every column of the row is occupied.
    pub fn is_finished(&self) -> (r: bool)
        ensures
            r == row_completed(self@),
    {
        let mut column: usize = 0;
        while column < HCELL_COUNT
            invariant
                column <= HCELL_COUNT,
                forall|c: usize| c < column ==> #[trigger] bits_occupied(self@, c),
            decreases HCELL_COUNT - column,
        {
            if self.0 & column_to_bit_mask(column) == 0 {
                assert(!bits_occupied(self@, column));
                return false;
            }
            column = column + 1;
        }
        true
    }
}

/// The board: one row bitmask for each row, row 0 at the top.
pub struct GameState {
    pub rows: [Row; VCELL_COUNT],
}

impl View for GameState {
    type V = Seq<u32>;

    open spec fn view(&self) -> Seq<u32> {
        self.rows@.map_values(|r: Row| r@)
    }
}

impl GameState {
    /// An empty board.
    pub fn new() -> (r: GameState)
        ensures
            r@ == Seq::new(VCELL_COUNT as nat, |i: int| 0u32),
    {
        let r = GameState { rows: [Row(0); VCELL_COUNT] };
        assert(r@ =~= Seq::new(VCELL_COUNT as nat, |i: int| 0u32));
        r
    }

    /// The bitmask of row `row`.
    pub fn row_bits(&self, row: usize) -> (r: u32)
        requires
            row < VCELL_COUNT,
        ensures
            r == self@[row as int],
    {
        self.rows[row].0
    }

    /// True iff `row` lies on the board and its cell at `column` is empty.
    pub fn can_place(&self, row: usize, column: usize) -> (r: bool)
        requires
            column < HCELL_COUNT,
        ensures
            r == board_can_place(self@, row as int, column),
    {
        row < VCELL_COUNT && self.rows[row].can_move(column)
    }

    /// True iff the cell at (`row`, `column`) is occupied.
    pub fn occupied(&self, row: usize, column: usize) -> (r: bool)
        requires
            row < VCELL_COUNT,
            column < HCELL_COUNT,
        ensures
            r == bits_occupied(self@[row as int], column),
    {
        self.rows[row].occupied(column)
    }

    /// Occupies the cell at (`row`, `column`).
    pub fn set_cell(&mut self, row: usize, column: usize)
        requires
            row < VCELL_COUNT,
            column < HCELL_COUNT,
        ensures
            final(self)@ == board_set(old(self)@, row as int, column),
            !board_can_place(final(self)@, row as int, column),
            bits_occupied(final(self)@[row as int], column),
    {
        let mut r = self.rows[row];
        r.set(column);
        self.rows[row] = r;
        assert(self@ =~= board_set(old(self)@, row as int, column));
        proof {
            lemma_set_bits_occupied(old(self)@[row as int], column, column);
        }
    }

    /// Occupies the cell of `block`.
    pub fn set(&mut self, block: &Block)
        requires
            block.wf(),
        ensures
            final(self)@ == board_set(old(self)@, block.cell_row(), block.cell_column() as usize),
    {
        self.set_cell(block.row(), block.column());
    }

    /// True iff every column of `row` is occupied.
    pub fn row_is_completed(&self, row: usize) -> (r: bool)
        requires
            row < VCELL_COUNT,
        ensures
            r == row_completed(self@[row as int]),
    {
        self.rows[row].is_finished()
    }

    /// Removes `row`: every row above it falls by one and row 0 becomes empty.
    pub fn clear_row(&mut self, row: usize)
        requires
            row < VCELL_COUNT,
        ensures
            final(self)@ == board_clear_row(old(self)@, row as int),
    {
        let ghost board = old(self).rows@;
        let mut i: usize = row;
        while i > 0
            invariant
                i <= row < VCELL_COUNT,
                board.len() == VCELL_COUNT,
                self.rows@.len() == VCELL_COUNT,
                forall|j: int| 0 <= j <= i ==> #[trigger] self.rows@[j] == board[j],
                forall|j: int| i < j <= row ==> #[trigger] self.rows@[j] == board[j - 1],
                forall|j: int| row < j < VCELL_COUNT ==> #[trigger] self.rows@[j] == board[j],
            decreases i,
        {
            self.rows[i] = self.rows[i - 1];
            i = i - 1;
        }
        self.rows[0] = Row(0);
        assert(self@ =~= board_clear_row(old(self)@, row as int));
    }
}

impl Default for GameState {
    fn default() -> (r: GameState)
        ensures
            r@ == Seq::new(VCELL_COUNT as nat, |i: int| 0u32),
    {
        GameState::new()
    }
}

/// Right after a cell is set, it cannot be placed on and it reads as occupied.
pub proof fn lemma_set_blocks_placement(board: Seq<u32>, row: int, column: usize)
    requires
        0 <= row < board.len(),
        column < HCELL_COUNT,
    ensures
        !board_can_place(board_set(board, row, column), row, column),
        bits_occupied(board_set(board, row, column)[row], column),
{
    lemma_set_bits_occupied(board[row], column, column);
}

/// Setting cells one after the other only adds occupied columns: a column is occupied at
/// the end iff it was before or it was set.
pub proof fn lemma_fill_columns_occupied(bits: u32, columns: Seq<usize>, column: usize)
    requires
        column < HCELL_COUNT,
        forall|k: int| 0 <= k < columns.len() ==> #[trigger] columns[k] < HCELL_COUNT,
    ensures
        bits_occupied(fill_columns(bits, columns), column) == (bits_occupied(bits, column)
            || columns.contains(column)),
    decreases columns.len(),
{
    if columns.len() > 0 {
        let rest = columns.drop_first();
        lemma_set_bits_occupied(bits, columns[0], column);
        assert forall|k: int| 0 <= k < rest.len() implies #[trigger] rest[k] < HCELL_COUNT by {
            assert(rest[k] == columns[k + 1]);
        }
        lemma_fill_columns_occupied(bits | column_mask(columns[0]), rest, column);
        if columns.contains(column) && columns[0] != column {
            let k = choose|k: int| 0 <= k < columns.len() && columns[k] == column;
            assert(rest[k - 1] == column);
        }
        if rest.contains(column) {
            let k = choose|k: int| 0 <= k < rest.len() && rest[k] == column;
            assert(columns[k + 1] == column);
        }
    }
}

/// A row that starts empty and has cells set in `columns` is completed iff every column
/// was set: missing even one column leaves it uncompleted.
pub proof fn lemma_row_completion(columns: Seq<usize>)
    requires
        forall|k: int| 0 <= k < columns.len() ==> #[trigger] columns[k] < HCELL_COUNT,
    ensures
        row_completed(fill_columns(0, columns)) <==> forall|c: usize|
            c < HCELL_COUNT ==> #[trigger] columns.contains(c),
{
    let bits = fill_columns(0, columns);
    assert forall|c: usize| c < HCELL_COUNT implies bits_occupied(bits, c) == columns.contains(
        c,
    ) by {
        lemma_fill_columns_occupied(0, columns, c);
        lemma_zero_bits_free(c);
    }
    if row_completed(bits) {
        assert forall|c: usize| c < HCELL_COUNT implies #[trigger] columns.contains(c) by {
            assert(bits_occupied(bits, c));
        }
    }
    if forall|c: usize| c < HCELL_COUNT ==> #[trigger] columns.contains(c) {
        assert forall|c: usize| c < HCELL_COUNT implies #[trigger] bits_occupied(bits, c) by {
            assert(columns.contains(c));
        }
    }
}

/// Clearing `row` empties row 0, gives each row from 1 to `row` the former content of the
/// row above it, and keeps the rows below `row`.
pub proof fn lemma_clear_row_shifts(board: Seq<u32>, row: int)
    requires
        0 <= row < board.len(),
    ensures
        board_clear_row(board, row).len() == board.len(),
        board_clear_row(board, row)[0] == 0,
        forall|i: int| 1 <= i <= row ==> #[trigger] board_clear_row(board, row)[i] == board[i - 1],
        forall|i: int| row < i < board.len() ==> #[trigger] board_clear_row(board, row)[i] == board[i],
{
}

} // verus!
