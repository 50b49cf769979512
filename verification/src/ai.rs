//! The computer players: what every one of them offers, and the players
//! themselves.

use vstd::prelude::*;
use crate::constants::BOARD_WIDTH;
use crate::disks::Disks;

pub mod brute_force;
pub mod brute_force_helper;
pub mod perfect_helper;
pub mod random;
pub mod util;

verus! {

/// A player that can be asked for a move.
pub trait AI {
    /// Requests the next move for a board with an open column. The answer is
    /// the column of the move, which is then open, or `BOARD_WIDTH` where the
    /// move will be handed over later.
    fn request_move(&mut self, disks: &Disks) -> (col: u8)
        requires
            disks.wf(),
            exists|c: int| 0 <= c < 7 && !disks@.col_full(c),
        ensures
            col <= BOARD_WIDTH,
            col < BOARD_WIDTH ==> !disks@.col_full(col as int),
    ;
}

/// A player that can be made to play better from round to round.
pub trait SurvivalAI: AI {
    /// Asks the player to look further ahead from the next move on.
    fn increment_difficulty(&mut self);

    /// The number of the round that the player is in, from 1.
    fn get_difficulty_level(&self) -> u8;
}

} // verus!
