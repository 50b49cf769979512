//! What the perfect player keeps between two moves.

use vstd::prelude::*;
use crate::position_lookup_table::PositionLookupTable;

verus! {

/// The state of the perfect player's search.
pub struct PerfectAIHelper {
    /// How many moves the search looks ahead.
    pub max_moves_look_ahead: u8,
    /// The scores of positions that the search has met.
    pub position_lookup_table: PositionLookupTable,
}

} // verus!
