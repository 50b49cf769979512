//! The random player: it chooses any open column.

use vstd::prelude::*;
use crate::ai::AI;
use crate::ai::util::random_col_from_options;
use crate::constants::BOARD_WIDTH;
use crate::disks::{Disks, Error};

verus! {

/// A player that drops its disk into an open column chosen at random.
pub struct RandomAI;

impl RandomAI {
    /// The open columns of the board, from left to right.
    pub fn open_columns(disks: &Disks) -> (cols: Vec<u8>)
        ensures
            forall|i: int| 0 <= i < cols@.len() ==> cols@[i] < 7 && !disks@.col_full(cols@[i] as int),
            forall|c: int| 0 <= c < 7 && !disks@.col_full(c) ==> cols@.contains(c as u8),
            forall|i: int, j: int| 0 <= i < j < cols@.len() ==> cols@[i] < cols@[j],
    {
        let mut available_cols: Vec<u8> = Vec::with_capacity(BOARD_WIDTH as usize);
        let mut col: u8 = 0;
        while col < BOARD_WIDTH
            invariant
                col <= 7,
                forall|i: int|
                    0 <= i < available_cols@.len() ==> available_cols@[i] < col && !disks@.col_full(
                        available_cols@[i] as int,
                    ),
                forall|c: int|
                    0 <= c < col && !disks@.col_full(c) ==> available_cols@.contains(c as u8),
                forall|i: int, j: int|
                    0 <= i < j < available_cols@.len() ==> available_cols@[i] < available_cols@[j],
            decreases 7 - col,
        {
            if !disks.is_col_full(col) {
                let ghost before = available_cols@;
                available_cols.push(col);
                assert(available_cols@[before.len() as int] == col);
                assert forall|c: int|
                    0 <= c < col + 1 && !disks@.col_full(c) implies available_cols@.contains(
                    c as u8,
                ) by {
                    if c < col {
                        let i = choose|i: int| 0 <= i < before.len() && before[i] == c as u8;
                        assert(available_cols@[i] == c as u8);
                    }
                }
            }
            col += 1;
        }
        available_cols
    }
}

impl RandomAI {
    /// An open column chosen at random; fails where the board has none.
    pub fn choose_column(disks: &Disks) -> (res: Result<u8, Error>)
        ensures
            (forall|c: int| 0 <= c < 7 ==> disks@.col_full(c)) ==> res == Err::<u8, Error>(
                Error::NoLegalMove,
            ),
            (exists|c: int| 0 <= c < 7 && !disks@.col_full(c)) ==> res is Ok && res->Ok_0 < 7
                && !disks@.col_full(res->Ok_0 as int),
    {
        let available_cols: Vec<u8> = RandomAI::open_columns(disks);
        proof {
            if exists|c: int| 0 <= c < 7 && !disks@.col_full(c) {
                let c = choose|c: int| 0 <= c < 7 && !disks@.col_full(c);
                assert(available_cols@.contains(c as u8));
            }
            if available_cols@.len() > 0 {
                assert(!disks@.col_full(available_cols@[0] as int));
            }
        }
        match random_col_from_options(&available_cols) {
            Some(col) => Ok(*col),
            None => Err(Error::NoLegalMove),
        }
    }
}

impl AI for RandomAI {
    /// Gets a random move from the available columns.
    fn request_move(&mut self, disks: &Disks) -> (col: u8)
        ensures
            col < BOARD_WIDTH,
            *final(self) == *old(self),
    {
        match RandomAI::choose_column(disks) {
            Ok(col) => col,
            Err(_) => BOARD_WIDTH,
        }
    }
}

} // verus!
