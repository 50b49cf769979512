//! What several computer players share.

use vstd::prelude::*;
use rand::seq::SliceRandom;

verus! {

/// The message that asks a survival player to look further ahead.
pub const AI_INCREMENT_MESSAGE: u8 = 8;

/// By how many moves a brute-force survival player looks further ahead
/// after each round.
pub const BRUTE_FORCE_SURVIVAL_DIFFICULTY_INCREMENT: u8 = 4;

/// Given a list of columns to choose from, return one at random.
///
/// Calls `choose` of rand's `SliceRandom` with the generator of the thread
/// (`rand::thread_rng`). Nothing is proved of it; what is assumed is that it
/// hands back `None` for an empty list and an entry of the list otherwise.
/// Which entry comes back is left open. The generator is seeded from the
/// system when a thread first uses it, and panics where the system has no
/// randomness to give.
#[verifier::external_body]
pub fn random_col_from_options(options: &Vec<u8>) -> (choice: Option<&u8>)
    ensures
        options@.len() == 0 ==> choice is None,
        options@.len() > 0 ==> choice is Some && options@.contains(*choice->0),
{
    options.choose(&mut rand::thread_rng())
}

} // verus!
