//! Board dimensions and sizes shared by the whole library.

use vstd::prelude::*;

verus! {

/// Number of rows of the board.
pub const BOARD_HEIGHT: u8 = 6;

/// Number of columns of the board.
pub const BOARD_WIDTH: u8 = 7;

/// Capacity that a fresh position lookup table is created with.
pub const LOOKUP_TABLE_SIZE: usize = 1000;

} // verus!
