use vstd::prelude::*;

verus! {

/// Number of rows of the playing field.
pub const VCELL_COUNT: usize = 21;

/// Number of columns of the playing field.
pub const HCELL_COUNT: usize = 10;

/// Width, in bits, of the group that a column takes in a row bitmask.
pub const BITS_PER_CELL: usize = 3;

/// The bits of one column group, before it is shifted into place.
pub const CELL_BIT_MASK: u32 = 0b111;

/// Side of the largest bounding square of a shape.
pub const TETRIMINO_SIZE: usize = 4;

/// Column at which new pieces are spawned.
pub const SPAWN_COLUMN: usize = 5;

} // verus!
