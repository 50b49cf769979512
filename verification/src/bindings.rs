//! The board as the server keeps it where it referees the game itself: a
//! grid of cells, turned into the bytes of a game update for the clients.

use vstd::prelude::*;
use vstd::array::array_fill_for_copy_types;
use crate::bits::BOARD_MASK;
use crate::disks::{DiskColor, Disks};
use crate::protocol::{encoded, ConnectionProtocol, GameUpdate};

verus! {

/// A grid of six rows of seven cells, `board[row][col]`.
#[derive(Debug, Clone, Copy)]
pub struct Board {
    pub board: [[DiskColor; 7]; 6],
}

impl Default for Board {
    /// The empty grid.
    fn default() -> (grid: Self)
        ensures
            forall|r: int, c: int| 0 <= r < 6 && 0 <= c < 7 ==> grid.board@[r]@[c] == DiskColor::Empty,
    {
        let row: [DiskColor; 7] = array_fill_for_copy_types(DiskColor::Empty);
        let board: [[DiskColor; 7]; 6] = array_fill_for_copy_types(row);
        assert forall|r: int, c: int| 0 <= r < 6 && 0 <= c < 7 implies board@[r]@[c]
            == DiskColor::Empty by {
            assert(board@[r] == row);
            assert(row@[c] == DiskColor::Empty);
        }
        Self { board }
    }
}

impl Board {
    /// The bytes of the game update that tells the clients of the grid, of
    /// whose turn it is and of whether the game is won: the update of the
    /// board whose cells are those of the grid, with no bit set that stands
    /// for no cell, and the disks of the side to move among the disks.
    pub fn to_game_update_binary(&self, is_p1_turn: bool, game_won: bool) -> (bytes: Vec<u8>)
        ensures
            exists|disks: Disks|
                {
                    &&& disks.p1_to_move() == is_p1_turn
                    &&& forall|r: int, c: int|
                        0 <= r < 6 && 0 <= c < 7 ==> disks@.at(r, c) == self.board@[r]@[c]
                    &&& disks.mask_bits() & !BOARD_MASK == 0
                    &&& disks.position_bits() & !disks.mask_bits() == 0
                    &&& #[trigger] encoded(
                        GameUpdate {
                            position: disks.position_bits(),
                            mask: disks.mask_bits(),
                            is_p1_turn,
                            game_won,
                        },
                    ) == bytes@
                },
    {
        let disks: Disks = Disks::from_cells(&self.board, is_p1_turn);
        let bytes = ConnectionProtocol::encode_message(disks.to_game_update(game_won));
        assert(encoded(
            GameUpdate {
                position: disks.position_bits(),
                mask: disks.mask_bits(),
                is_p1_turn,
                game_won,
            },
        ) == bytes@);
        bytes
    }
}

} // verus!
