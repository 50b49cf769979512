//! The position lookup table stores the scores found for board positions,
//! so that the search does not work them out again.

use vstd::prelude::*;
use std::collections::HashMap;
use crate::disks::Disks;

verus! {

broadcast use vstd::std_specs::hash::group_hash_axioms;

/// Previously calculated positions, by the key of the board.
pub struct PositionLookupTable {
    table: HashMap<u64, i8>,
}

impl View for PositionLookupTable {
    type V = Map<u64, i8>;

    closed spec fn view(&self) -> Map<u64, i8> {
        self.table@
    }
}

impl PositionLookupTable {
    /// Create a new, empty table with room for `min_capacity` positions.
    pub fn new(min_capacity: usize) -> (table: Self)
        ensures
            table@ == Map::<u64, i8>::empty(),
    {
        Self { table: HashMap::with_capacity(min_capacity) }
    }

    /// Stores `score` for the position, in place of any score that was
    /// stored for it before.
    pub fn insert(&mut self, position: &Disks, score: i8)
        requires
            position.wf(),
        ensures
            final(self)@ == old(self)@.insert(position.spec_key(), score),
    {
        self.table.insert(position.get_key(), score);
    }

    /// Returns the score stored for the position, or `None` where there is
    /// none.
    pub fn get(&self, position: &Disks) -> (score: Option<i8>)
        requires
            position.wf(),
        ensures
            score == if self@.contains_key(position.spec_key()) {
                Some(self@[position.spec_key()])
            } else {
                None
            },
    {
        let key: u64 = position.get_key();
        match self.table.get(&key) {
            Some(score) => Some(*score),
            None => None,
        }
    }
}

} // verus!
