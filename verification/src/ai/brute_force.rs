//! The brute-force player as its callers see it: requests are taken in and
//! answered in turn, so that asking for a move never waits for the search.

use vstd::prelude::*;
use crate::ai::brute_force_helper::{
    can_win_now, candidate_columns, is_best_move, move_scores, scores_bounded, table_after,
    wins_by, BruteForceAIHelper,
};
use crate::ai::util::{AI_INCREMENT_MESSAGE, BRUTE_FORCE_SURVIVAL_DIFFICULTY_INCREMENT};
use crate::ai::{AI, SurvivalAI};
use crate::constants::{BOARD_WIDTH, LOOKUP_TABLE_SIZE};
use crate::disks::Disks;
use crate::position_lookup_table::PositionLookupTable;
use crate::util::GameUpdateMessage;

verus! {

/// Whether a search is owed.
#[derive(Debug, Clone, Copy, PartialEq, Eq, Structural)]
pub enum SearchState {
    /// No request waits.
    Idle,
    /// At least one request waits for its answer.
    Searching,
}

/// Whether the search can take the message: a board that play can produce,
/// or a single byte.
pub open spec fn acceptable(msg: GameUpdateMessage) -> bool {
    match msg {
        GameUpdateMessage::Disks(disks) => disks.wf(),
        GameUpdateMessage::SimpleMessage(_) => true,
        _ => false,
    }
}

/// A queue of messages that can be taken stays one when such a message
/// joins it.
pub proof fn lemma_push_acceptable(queue: Seq<GameUpdateMessage>, msg: GameUpdateMessage)
    requires
        forall|i: int| 0 <= i < queue.len() ==> acceptable(#[trigger] queue[i]),
        acceptable(msg),
    ensures
        forall|i: int| 0 <= i < queue.push(msg).len() ==> acceptable(#[trigger] queue.push(msg)[i]),
{
    assert forall|i: int| 0 <= i < queue.push(msg).len() implies acceptable(
        #[trigger] queue.push(msg)[i],
    ) by {
        if i < queue.len() {
            assert(queue.push(msg)[i] == queue[i]);
        }
    }
}

/// The brute-force player: its search, the round it is in, and the
/// requests that wait, the oldest first.
pub struct BruteForceAI {
    helper: BruteForceAIHelper,
    difficulty_level: u8,
    requests: Vec<GameUpdateMessage>,
}

impl BruteForceAI {
    /// The requests that wait, the oldest first.
    pub closed spec fn pending(&self) -> Seq<GameUpdateMessage> {
        self.requests@
    }

    /// How many moves the next search looks ahead.
    pub closed spec fn look_ahead(&self) -> u8 {
        self.helper.max_moves_look_ahead
    }

    /// The scores that the next search has at hand.
    pub closed spec fn table(&self) -> Map<u64, i8> {
        self.helper.position_lookup_table@
    }

    /// The round that the player is in, from 1.
    pub closed spec fn level(&self) -> u8 {
        self.difficulty_level
    }

    /// The search looks at least one move ahead, the stored scores are in
    /// range, and every request that waits can be taken.
    pub open spec fn wf(&self) -> bool {
        &&& self.look_ahead() >= 1
        &&& scores_bounded(self.table())
        &&& forall|i: int| 0 <= i < self.pending().len() ==> acceptable(#[trigger] self.pending()[i])
    }

    /// A player as it is made: in round 1, looking `look_ahead` moves ahead,
    /// with nothing stored and no request waiting.
    pub open spec fn is_fresh(&self, look_ahead: u8) -> bool {
        &&& self.look_ahead() == look_ahead
        &&& self.level() == 1
        &&& self.table() == Map::<u64, i8>::empty()
        &&& self.pending() == Seq::<GameUpdateMessage>::empty()
    }

    /// Whether raising the difficulty once more stays within a byte.
    pub open spec fn can_increment(&self) -> bool {
        self.look_ahead() + BRUTE_FORCE_SURVIVAL_DIFFICULTY_INCREMENT <= u8::MAX && self.level() < u8::MAX
    }

    /// Creates a player in round 1 that looks `max_moves_look_ahead` moves
    /// ahead, with nothing stored and no request waiting.
    pub fn new(max_moves_look_ahead: u8) -> (ai: Self)
        requires
            max_moves_look_ahead >= 1,
        ensures
            ai.wf(),
            ai.is_fresh(max_moves_look_ahead),
    {
        Self {
            helper: BruteForceAIHelper::new(max_moves_look_ahead),
            difficulty_level: 1,
            requests: Vec::new(),
        }
    }

    /// Whether a request waits.
    pub fn state(&self) -> (state: SearchState)
        ensures
            state == if self.pending().len() == 0 {
                SearchState::Idle
            } else {
                SearchState::Searching
            },
    {
        if self.requests.is_empty() {
            SearchState::Idle
        } else {
            SearchState::Searching
        }
    }

    /// Whether raising the difficulty once more stays within a byte.
    pub fn has_room_to_increment(&self) -> (room: bool)
        ensures
            room == self.can_increment(),
    {
        self.helper.max_moves_look_ahead <= u8::MAX - BRUTE_FORCE_SURVIVAL_DIFFICULTY_INCREMENT
            && self.difficulty_level < u8::MAX
    }

    /// Whether `after` and `answer` are what handling `msg` leads to. A board
    /// is searched: the answer is a column that wins at once where there is
    /// one, else an open column that no open column outscores, or 0 where
    /// the board has no open column, and the table takes up what the search
    /// found. The increment byte opens the next round: the search looks
    /// further ahead and forgets what it stored. Any other byte changes
    /// nothing. Neither has an answer.
    pub open spec fn handled(
        self,
        after: BruteForceAI,
        msg: GameUpdateMessage,
        answer: Option<u8>,
    ) -> bool {
        match msg {
            GameUpdateMessage::Disks(disks) => {
                &&& answer is Some
                &&& answer->0 < 7
                &&& is_best_move(
                    move_scores(
                        disks,
                        disks@.num_disks(),
                        self.look_ahead() as int,
                        self.table(),
                    ),
                    candidate_columns(disks),
                    answer->0,
                )
                &&& can_win_now(disks) ==> wins_by(disks, answer->0 as int)
                &&& (exists|c: int| 0 <= c < 7 && !disks@.col_full(c)) ==> !disks@.col_full(
                    answer->0 as int,
                )
                &&& (forall|c: int| 0 <= c < 7 ==> disks@.col_full(c)) ==> answer->0 == 0
                &&& after.table() == table_after(
                    disks,
                    disks@.num_disks(),
                    self.look_ahead() as int,
                    self.table(),
                    7,
                )
                &&& after.look_ahead() == self.look_ahead()
                &&& after.level() == self.level()
            },
            GameUpdateMessage::SimpleMessage(byte) => {
                &&& answer is None
                &&& byte == AI_INCREMENT_MESSAGE ==> {
                    &&& after.look_ahead() == self.look_ahead()
                        + BRUTE_FORCE_SURVIVAL_DIFFICULTY_INCREMENT
                    &&& after.level() == self.level() + 1
                    &&& after.table() == Map::<u64, i8>::empty()
                }
                &&& byte != AI_INCREMENT_MESSAGE ==> {
                    &&& after.look_ahead() == self.look_ahead()
                    &&& after.level() == self.level()
                    &&& after.table() == self.table()
                }
            },
            _ => true,
        }
    }

    /// Whether the oldest request that waits can be handled: there is one,
    /// and where it asks for the next round, there is room for it.
    pub open spec fn next_can_be_handled(&self) -> bool {
        &&& self.pending().len() > 0
        &&& self.pending()[0] == GameUpdateMessage::SimpleMessage(AI_INCREMENT_MESSAGE)
            ==> self.can_increment()
    }

    /// Whether the oldest request that waits can be handled.
    pub fn next_fits(&self) -> (fits: bool)
        ensures
            fits == self.next_can_be_handled(),
    {
        if self.requests.is_empty() {
            return false;
        }
        match self.requests[0] {
            GameUpdateMessage::SimpleMessage(byte) => byte != AI_INCREMENT_MESSAGE
                || self.has_room_to_increment(),
            _ => true,
        }
    }

    /// What the player does with one message. A board is searched and the
    /// column of the move comes back. The increment byte opens the next
    /// round: the search looks further ahead and forgets what it stored.
    /// Any other byte changes nothing.
    pub fn handle_message(&mut self, msg: GameUpdateMessage) -> (answer: Option<u8>)
        requires
            old(self).wf(),
            acceptable(msg),
            msg == GameUpdateMessage::SimpleMessage(AI_INCREMENT_MESSAGE) ==> old(self).can_increment(),
        ensures
            final(self).wf(),
            final(self).pending() == old(self).pending(),
            old(self).handled(*final(self), msg, answer),
    {
        match msg {
            GameUpdateMessage::Disks(disks) => {
                let ai_move: u8 = self.helper.get_move(&disks);
                assert(self.pending() == old(self).pending());
                Some(ai_move)
            },
            GameUpdateMessage::SimpleMessage(inc) => {
                if inc == AI_INCREMENT_MESSAGE {
                    self.difficulty_level += 1;
                    self.helper.max_moves_look_ahead += BRUTE_FORCE_SURVIVAL_DIFFICULTY_INCREMENT;
                    // the old table may hold scores that no longer stand, now that
                    // the search looks further ahead
                    self.helper.position_lookup_table = PositionLookupTable::new(LOOKUP_TABLE_SIZE);
                }
                assert(self.pending() == old(self).pending());
                None
            },
            _ => None,
        }
    }

    /// Takes the oldest request that waits and handles it: see
    /// `handle_message`. Requests are answered in the order in which they
    /// came.
    pub fn process_next(&mut self) -> (answer: Option<u8>)
        requires
            old(self).wf(),
            old(self).next_can_be_handled(),
        ensures
            final(self).wf(),
            final(self).pending() == old(self).pending().remove(0),
            old(self).handled(*final(self), old(self).pending()[0], answer),
            (old(self).pending()[0] is Disks) == (answer is Some),
            answer is Some ==> answer->0 < 7,
            old(self).pending()[0] is Disks && (exists|c: int|
                0 <= c < 7 && !old(self).pending()[0]->Disks_0@.col_full(c))
                ==> !old(self).pending()[0]->Disks_0@.col_full(answer->0 as int),
            old(self).pending()[0] is Disks && can_win_now(old(self).pending()[0]->Disks_0)
                ==> wins_by(old(self).pending()[0]->Disks_0, answer->0 as int),
    {
        let msg: GameUpdateMessage = self.requests.remove(0);
        let answer = self.handle_message(msg);
        answer
    }
}

impl AI for BruteForceAI {
    /// Hands the board to the search: the request queues behind those that
    /// wait, and the answer is `BOARD_WIDTH`, as the move comes later.
    fn request_move(&mut self, disks: &Disks) -> (col: u8)
        ensures
            col == BOARD_WIDTH,
            final(self).pending() == old(self).pending().push(GameUpdateMessage::Disks(*disks)),
            final(self).look_ahead() == old(self).look_ahead(),
            final(self).level() == old(self).level(),
            final(self).table() == old(self).table(),
            old(self).wf() ==> final(self).wf(),
    {
        self.requests.push(GameUpdateMessage::Disks(*disks));
        proof {
            if old(self).wf() {
                lemma_push_acceptable(old(self).pending(), GameUpdateMessage::Disks(*disks));
            }
        }
        BOARD_WIDTH
    }
}

impl SurvivalAI for BruteForceAI {
    /// Used for survival mode, to make the player harder each round.
    fn increment_difficulty(&mut self)
        ensures
            final(self).pending() == old(self).pending().push(
                GameUpdateMessage::SimpleMessage(AI_INCREMENT_MESSAGE),
            ),
            final(self).look_ahead() == old(self).look_ahead(),
            final(self).level() == old(self).level(),
            final(self).table() == old(self).table(),
            old(self).wf() ==> final(self).wf(),
    {
        self.requests.push(GameUpdateMessage::SimpleMessage(AI_INCREMENT_MESSAGE));
        proof {
            if old(self).wf() {
                lemma_push_acceptable(
                    old(self).pending(),
                    GameUpdateMessage::SimpleMessage(AI_INCREMENT_MESSAGE),
                );
            }
        }
    }

    fn get_difficulty_level(&self) -> (level: u8)
        ensures
            level == self.level(),
    {
        self.difficulty_level
    }
}

} // verus!
