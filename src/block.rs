use vstd::prelude::*;

use crate::constants::{HCELL_COUNT, VCELL_COUNT};
use crate::game_state::{board_can_place, board_set, Row};
use crate::utils::{bits_occupied, column_mask};

verus! {

/// The local offset of a block after a quarter turn inside a bounding square of side `size`.
pub open spec fn rotated_offset(offset: (int, int), size: int) -> (int, int) {
    (offset.1, size - offset.0 - 1)
}

/// The board that a slice of rows stands for.
pub open spec fn rows_view(rows: Seq<Row>) -> Seq<u32> {
    rows.map_values(|r: Row| r@)
}

/// One cell of a piece: a shared anchor (`row`, `column`) and a local offset inside the
/// piece's bounding square.
#[derive(Clone, Copy, Debug, PartialEq, Eq, Structural)]
pub struct Block {
    pub local_row: usize,
    pub local_column: usize,
    pub row: usize,
    pub column: usize,
}

impl Block {
    /// The row of the block's cell.
    pub open spec fn cell_row(self) -> int {
        self.row + self.local_row
    }

    /// The column of the block's cell.
    pub open spec fn cell_column(self) -> int {
        self.column + self.local_column
    }

    /// The block's cell lies on the board.
    pub open spec fn wf(self) -> bool {
        self.cell_row() < VCELL_COUNT && self.cell_column() < HCELL_COUNT
    }

    /// The block after its cell has been moved to column `value`: the anchor takes what it
    /// can, and at the left wall the anchor is 0 and the offset takes the rest.
    pub open spec fn with_column(self, value: int) -> Block {
        if value >= self.local_column {
            Block { column: (value - self.local_column) as usize, ..self }
        } else {
            Block { column: 0, local_column: value as usize, ..self }
        }
    }

    /// The block after a quarter turn inside a bounding square of side `size`.
    pub open spec fn rotated(self, size: int) -> Block {
        let (lr, lc) = rotated_offset((self.local_row as int, self.local_column as int), size);
        Block { local_row: lr as usize, local_column: lc as usize, ..self }
    }

    pub fn new(row: usize, column: usize, local_row: usize, local_column: usize) -> (r: Self)
        ensures
            r == (Block { row, column, local_row, local_column }),
    {
        Self { row, column, local_row, local_column }
    }

    /// The row of the block's cell.
    pub fn row(&self) -> (r: usize)
        requires
            self.wf(),
        ensures
            r == self.cell_row(),
    {
        self.row + self.local_row
    }

    /// Moves the block's cell to row `value`; the offset is kept.
    pub fn set_row(&mut self, value: usize)
        requires
            old(self).local_row <= value,
        ensures
            *final(self) == (Block { row: (value - old(self).local_row) as usize, ..*old(self) }),
            final(self).cell_row() == value,
    {
        self.row = value - self.local_row;
    }

    /// Moves the anchor one row down; the offset is kept.
    pub fn move_to_next_row(&mut self)
        requires
            old(self).cell_row() + 1 < VCELL_COUNT,
        ensures
            *final(self) == (Block { row: (old(self).row + 1) as usize, ..*old(self) }),
    {
        self.row = self.row + 1;
    }

    /// The column of the block's cell.
    pub fn column(&self) -> (r: usize)
        requires
            self.wf(),
        ensures
            r == self.cell_column(),
    {
        self.column + self.local_column
    }

    /// Moves the block's cell to column `value`.
    pub fn set_column(&mut self, value: usize)
        ensures
            *final(self) == old(self).with_column(value as int),
            final(self).cell_column() == value,
    {
        match value.checked_sub(self.local_column) {
            Some(column) => {
                self.column = column;
            },
            None => {
                self.column = 0;
                self.local_column = match self.local_column.checked_sub(self.local_column - value) {
                    Some(c) => c,
                    None => 0,
                };
            },
        }
    }

    /// True iff the cell below the block lies on the board and is free in `rows`.
    pub fn can_move_next_row(&self, rows: &[Row]) -> (r: bool)
        requires
            self.wf(),
            rows@.len() == VCELL_COUNT,
        ensures
            r == board_can_place(rows_view(rows@), self.cell_row() + 1, self.cell_column() as usize),
    {
        let row_idx = self.row() + 1;
        if row_idx < VCELL_COUNT {
            let row = &rows[row_idx];
            row.can_move(self.column())
        } else {
            false
        }
    }

    /// True iff the block's own column is free in `row`.
    pub fn can_move(&self, row: &Row) -> (r: bool)
        requires
            self.wf(),
        ensures
            r == !bits_occupied(row@, self.cell_column() as usize),
    {
        row.can_move(self.column())
    }

    /// True iff the cell left of the block lies on the board and is free in `row`.
    pub fn can_move_left(&self, row: &Row) -> (r: bool)
        requires
            self.wf(),
        ensures
            r == (self.cell_column() > 0 && !bits_occupied(row@, (self.cell_column() - 1) as usize)),
    {
        match self.column().checked_sub(1) {
            Some(c) => row.can_move(c),
            None => false,
        }
    }

    /// Moves the block's cell one column to the left.
    pub fn move_left(&mut self)
        requires
            old(self).wf(),
            old(self).cell_column() > 0,
        ensures
            *final(self) == old(self).with_column(old(self).cell_column() - 1),
            final(self).cell_column() == old(self).cell_column() - 1,
            final(self).cell_row() == old(self).cell_row(),
    {
        self.set_column(self.column() - 1);
    }

    /// True iff the cell right of the block lies on the board and is free in `row`.
    pub fn can_move_right(&self, row: &Row) -> (r: bool)
        requires
            self.wf(),
        ensures
            r == (self.cell_column() + 1 < HCELL_COUNT && !bits_occupied(
                row@,
                (self.cell_column() + 1) as usize,
            )),
    {
        (self.column() + 1) < HCELL_COUNT && row.can_move(self.column() + 1)
    }

    /// Moves the block's cell one column to the right.
    pub fn move_right(&mut self)
        requires
            old(self).wf(),
            old(self).cell_column() + 1 < HCELL_COUNT,
        ensures
            *final(self) == old(self).with_column(old(self).cell_column() + 1),
            final(self).cell_column() == old(self).cell_column() + 1,
            final(self).cell_row() == old(self).cell_row(),
    {
        self.set_column(self.column() + 1);
    }

    /// True iff the block, turned inside a bounding square of side `size`, stays on the
    /// board. Occupancy is not consulted.
    pub fn can_rotate(&self, size: usize) -> (r: bool)
        requires
            self.local_row < size,
            self.wf(),
        ensures
            r == self.rotated(size as int).wf(),
    {
        let local_row = self.local_column;
        let local_column = size - self.local_row - 1;

        local_column < HCELL_COUNT - self.column && self.row + local_row < VCELL_COUNT
    }

    /// Turns the block a quarter inside a bounding square of side `size`.
    pub fn rotate(&mut self, size: usize)
        requires
            old(self).local_row < size,
        ensures
            *final(self) == old(self).rotated(size as int),
    {
        let local_row = self.local_column;
        let local_column = size - self.local_row - 1;

        self.local_row = local_row;
        self.local_column = local_column;
    }

    /// Occupies the block's cell in `rows`.
    pub fn set(&self, rows: &mut [Row])
        requires
            self.wf(),
            old(rows)@.len() == VCELL_COUNT,
        ensures
            final(rows)@.len() == VCELL_COUNT,
            rows_view(final(rows)@) == board_set(
                rows_view(old(rows)@),
                self.cell_row(),
                self.cell_column() as usize,
            ),
    {
        let i = self.row();
        let mut field_row = rows[i];
        field_row.set(self.column());
        rows[i] = field_row;
        assert(rows_view(rows@) =~= board_set(
            rows_view(old(rows)@),
            self.cell_row(),
            self.cell_column() as usize,
        ));
    }
}

/// Four quarter turns bring any offset back to where it was.
pub proof fn lemma_rotated_offset_four_times(offset: (int, int), size: int)
    ensures
        rotated_offset(rotated_offset(rotated_offset(rotated_offset(offset, size), size), size), size)
            == offset,
{
}

/// Four quarter turns inside its bounding square bring a block back to where it was.
pub proof fn lemma_rotate_four_times(b: Block, size: usize)
    requires
        b.local_row < size,
        b.local_column < size,
    ensures
        b.rotated(size as int).rotated(size as int).rotated(size as int).rotated(size as int) == b,
{
}

} // verus!
