use vstd::prelude::*;

use crate::constants::{BITS_PER_CELL, CELL_BIT_MASK, HCELL_COUNT, TETRIMINO_SIZE, VCELL_COUNT};

verus! {

/// The mask of column `column` in a row bitmask: column 0 is the highest group.
pub open spec fn column_mask(column: usize) -> u32 {
    CELL_BIT_MASK << ((HCELL_COUNT - 1 - column) * BITS_PER_CELL) as u32
}

/// True iff the group of `column` holds any set bit.
pub open spec fn bits_occupied(bits: u32, column: usize) -> bool {
    bits & column_mask(column) != 0
}

/// The mask of column `column` in a row bitmask.
pub fn column_to_bit_mask(column: usize) -> (r: u32)
    requires
        column < HCELL_COUNT,
    ensures
        r == column_mask(column),
{
    CELL_BIT_MASK << (((HCELL_COUNT - 1) - column) * BITS_PER_CELL)
}

/// The row `TETRIMINO_SIZE` rows below `row`, or the row count where that is off the board.
pub fn add_tetrimino_size(row: usize) -> (r: usize)
    ensures
        r == if row + TETRIMINO_SIZE < VCELL_COUNT { row + TETRIMINO_SIZE } else { VCELL_COUNT as int },
{
    if row < VCELL_COUNT - TETRIMINO_SIZE {
        row + TETRIMINO_SIZE
    } else {
        VCELL_COUNT
    }
}

proof fn lemma_or_shifted_group(a: u32, s1: u32, s2: u32)
    by (bit_vector)
    requires
        s1 <= 27,
        s2 <= 27,
        s1 == s2 || s1 + 3 <= s2 || s2 + 3 <= s1,
    ensures
        ((a | (7u32 << s1)) & (7u32 << s2) != 0) == ((a & (7u32 << s2) != 0) || s1 == s2),
{
}

/// Setting the cell of `column` occupies it and leaves every other column as it was.
pub proof fn lemma_set_bits_occupied(bits: u32, column: usize, other: usize)
    requires
        column < HCELL_COUNT,
        other < HCELL_COUNT,
    ensures
        bits_occupied(bits | column_mask(column), other) == (bits_occupied(bits, other) || column
            == other),
{
    let s1 = ((9 - column) * 3) as u32;
    let s2 = ((9 - other) * 3) as u32;
    lemma_or_shifted_group(bits, s1, s2);
}

/// The empty row has no occupied column.
pub proof fn lemma_zero_bits_free(column: usize)
    requires
        column < HCELL_COUNT,
    ensures
        !bits_occupied(0, column),
{
    let s = ((9 - column) * 3) as u32;
    assert(0u32 & (7u32 << s) == 0) by (bit_vector);
}

} // verus!
