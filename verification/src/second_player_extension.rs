//! The second player: another person over the network, a computer player, or
//! nobody, where two people share one screen.

use vstd::prelude::*;
use crate::ai::brute_force::BruteForceAI;
use crate::ai::random::RandomAI;
use crate::ai::util::AI_INCREMENT_MESSAGE;
use crate::ai::{AI, SurvivalAI};
use crate::constants::BOARD_WIDTH;
use crate::disks::{DiskColor, Disks};
use crate::protocol::{ConnectionProtocol, GameUpdate};
use crate::util::{
    GameUpdateMessage, RequestMoveResult, SecondPlayerAIMode, SecondPlayerSurvivalAIMode,
};

verus! {

/// A computer player of one of the kinds that a game can be played against.
pub enum AIPlayer {
    Random(RandomAI),
    BruteForce(BruteForceAI),
}

impl AIPlayer {
    /// The brute-force player among them is well-formed.
    pub open spec fn wf(&self) -> bool {
        match self {
            AIPlayer::Random(_) => true,
            AIPlayer::BruteForce(ai) => ai.wf(),
        }
    }
}

/// The kinds of second player.
#[allow(inconsistent_fields)]
pub enum SecondPlayerExtensionMode {
    /// Another person over the network. The server decides whether it wants
    /// to be told the column of a move or the whole board.
    OnlinePlayer { send_update_as_col_num: bool },
    /// A computer player.
    AI { ai: AIPlayer, ai_color: DiskColor },
    /// A computer player that gets better from round to round.
    SurvivalMode { ai: BruteForceAI, ai_color: DiskColor },
    /// Two people at one screen.
    Local,
}

impl SecondPlayerExtensionMode {
    /// Whether two modes are of the same kind.
    pub open spec fn same_kind(&self, other: &Self) -> bool {
        match (self, other) {
            (
                SecondPlayerExtensionMode::OnlinePlayer { .. },
                SecondPlayerExtensionMode::OnlinePlayer { .. },
            ) => true,
            (SecondPlayerExtensionMode::AI { .. }, SecondPlayerExtensionMode::AI { .. }) => true,
            (
                SecondPlayerExtensionMode::SurvivalMode { .. },
                SecondPlayerExtensionMode::SurvivalMode { .. },
            ) => true,
            (SecondPlayerExtensionMode::Local, SecondPlayerExtensionMode::Local) => true,
            _ => false,
        }
    }

    /// Whether the second player is the random player.
    pub open spec fn plays_at_random(&self) -> bool {
        self matches SecondPlayerExtensionMode::AI { ai: AIPlayer::Random(_), .. }
    }

    /// The brute-force player, where the second player is one.
    pub open spec fn searcher(&self) -> Option<BruteForceAI> {
        match self {
            SecondPlayerExtensionMode::AI { ai: AIPlayer::BruteForce(ai), .. } => Some(*ai),
            SecondPlayerExtensionMode::SurvivalMode { ai, .. } => Some(*ai),
            _ => None,
        }
    }

    /// The colour that the computer player plays; `Empty` where the second
    /// player is none.
    pub open spec fn computer_color(&self) -> DiskColor {
        match self {
            SecondPlayerExtensionMode::AI { ai_color, .. } => *ai_color,
            SecondPlayerExtensionMode::SurvivalMode { ai_color, .. } => *ai_color,
            _ => DiskColor::Empty,
        }
    }

    /// Modes of the same kind are treated as equal.
    pub fn eq(&self, other: &Self) -> (same: bool)
        ensures
            same == self.same_kind(other),
    {
        match (self, other) {
            (
                SecondPlayerExtensionMode::OnlinePlayer { .. },
                SecondPlayerExtensionMode::OnlinePlayer { .. },
            ) => true,
            (SecondPlayerExtensionMode::AI { .. }, SecondPlayerExtensionMode::AI { .. }) => true,
            (
                SecondPlayerExtensionMode::SurvivalMode { .. },
                SecondPlayerExtensionMode::SurvivalMode { .. },
            ) => true,
            (SecondPlayerExtensionMode::Local, SecondPlayerExtensionMode::Local) => true,
            _ => false,
        }
    }
}

/// The message that tells the server of the board after `selected_col` was
/// played or, where `selected_col` is the undo byte, taken back.
pub open spec fn server_update(
    send_update_as_col_num: bool,
    selected_col: u8,
    disks: Disks,
    can_move: bool,
) -> GameUpdateMessage {
    let update = GameUpdate {
        position: disks.position_bits(),
        mask: disks.mask_bits(),
        is_p1_turn: disks.p1_to_move(),
        game_won: !can_move,
    };
    if send_update_as_col_num {
        GameUpdateMessage::SimpleMessage(selected_col)
    } else if selected_col == ConnectionProtocol::UNDO {
        GameUpdateMessage::UndoMove(update)
    } else {
        GameUpdateMessage::BoardState(update)
    }
}

/// Whether a computer player is asked for a move: not after an undo, only
/// while moves can be made, and only for a board with an open column.
pub open spec fn asks_computer(selected_col: u8, disks: Disks, can_move: bool) -> bool {
    &&& selected_col != ConnectionProtocol::UNDO
    &&& can_move
    &&& exists|c: int| 0 <= c < 7 && !disks@.col_full(c)
}

/// The brute-force player `after` is `before` with the board queued behind
/// the requests that wait.
pub open spec fn queued(before: BruteForceAI, after: BruteForceAI, disks: Disks) -> bool {
    &&& after.pending() == before.pending().push(GameUpdateMessage::Disks(disks))
    &&& after.look_ahead() == before.look_ahead()
    &&& after.level() == before.level()
    &&& after.table() == before.table()
}

/// Holds the second player and asks it for its moves.
pub struct SecondPlayerExtension {
    pub mode: SecondPlayerExtensionMode,
}

impl SecondPlayerExtension {
    /// The computer player, where there is one, is well-formed.
    pub open spec fn wf(&self) -> bool {
        match self.mode {
            SecondPlayerExtensionMode::AI { ai, .. } => ai.wf(),
            SecondPlayerExtensionMode::SurvivalMode { ai, .. } => ai.wf(),
            _ => true,
        }
    }

    /// Create an empty extension, as for two people at one screen.
    pub fn new() -> (ext: Self)
        ensures
            ext.mode is Local,
            ext.wf(),
    {
        Self { mode: SecondPlayerExtensionMode::Local }
    }

    /// Remove any second player.
    pub fn remove_extension(&mut self)
        ensures
            final(self).mode is Local,
            final(self).wf(),
    {
        self.mode = SecondPlayerExtensionMode::Local;
    }

    /// Discards the previous second player. Where the connection to the
    /// server was made, the second player is a person over the network, who
    /// is sent whole boards until the server asks for columns; else there is
    /// none.
    pub fn init_online(&mut self, connected: bool)
        ensures
            connected ==> final(self).mode == (SecondPlayerExtensionMode::OnlinePlayer {
                send_update_as_col_num: false,
            }),
            !connected ==> final(self).mode is Local,
            final(self).wf(),
    {
        self.mode =
        if connected {
            SecondPlayerExtensionMode::OnlinePlayer { send_update_as_col_num: false }
        } else {
            SecondPlayerExtensionMode::Local
        };
    }

    /// Discards the previous second player, and replaces it with a new
    /// computer player that plays the second colour: a random one, or a
    /// brute-force one that looks 20 moves ahead.
    pub fn init_ai(&mut self, ai_type: SecondPlayerAIMode)
        ensures
            final(self).wf(),
            final(self).mode is AI,
            final(self).mode.computer_color() == DiskColor::P2,
            ai_type == SecondPlayerAIMode::Random ==> final(self).mode.plays_at_random(),
            ai_type == SecondPlayerAIMode::BruteForce ==> final(self).mode.searcher() is Some
                && final(self).mode.searcher()->0.is_fresh(20),
    {
        self.mode = SecondPlayerExtensionMode::AI {
            ai: match ai_type {
                SecondPlayerAIMode::Random => AIPlayer::Random(RandomAI),
                SecondPlayerAIMode::BruteForce => AIPlayer::BruteForce(BruteForceAI::new(20)),
            },
            ai_color: DiskColor::P2,
        };
    }

    /// Discards the previous second player, and creates a new survival
    /// player that plays the second colour and begins by looking one move
    /// ahead.
    pub fn init_survival(&mut self, ai_type: SecondPlayerSurvivalAIMode)
        ensures
            final(self).wf(),
            final(self).mode is SurvivalMode,
            final(self).mode.computer_color() == DiskColor::P2,
            final(self).mode.searcher()->0.is_fresh(1),
    {
        self.mode = SecondPlayerExtensionMode::SurvivalMode {
            ai: match ai_type {
                SecondPlayerSurvivalAIMode::BruteForce => BruteForceAI::new(1),
            },
            ai_color: DiskColor::P2,
        };
    }

    /// Hands the game to the second player after `selected_col` was played
    /// or, where it is the undo byte, taken back. Says how the move of the
    /// second player will arrive, and gives the message that is to be sent
    /// to the server, where there is one.
    ///
    /// A person over the network is told of the board, and answers later. A
    /// computer player is asked only for a board with an open column on
    /// which a move can be made, and not after an undo: the random player
    /// answers at once with an open column, the brute-force player queues
    /// the board and answers later. With no second player nothing is asked.
    pub fn request_move(&mut self, selected_col: u8, disks: &Disks, can_move: bool) -> (res: (
        RequestMoveResult,
        Option<GameUpdateMessage>,
    ))
        requires
            old(self).wf(),
            disks.wf(),
        ensures
            final(self).wf(),
            final(self).mode.same_kind(&old(self).mode),
            old(self).mode matches SecondPlayerExtensionMode::OnlinePlayer {
                send_update_as_col_num,
            } ==> res.0 == RequestMoveResult::WillRerenderLater && res.1 == Some(
                server_update(send_update_as_col_num, selected_col, *disks, can_move),
            ) && final(self).mode == old(self).mode,
            old(self).mode is Local ==> res.0 == RequestMoveResult::NoRequestMade && res.1 is None
                && final(self).mode == old(self).mode,
            old(self).mode is AI || old(self).mode is SurvivalMode ==> res.1 is None,
            (old(self).mode is AI || old(self).mode is SurvivalMode) && !asks_computer(
                selected_col,
                *disks,
                can_move,
            ) ==> res.0 == RequestMoveResult::WillRerenderLater && final(self).mode == old(self).mode,
            old(self).mode.plays_at_random() && asks_computer(selected_col, *disks, can_move) ==> {
                &&& res.0 matches RequestMoveResult::RerenderNow(col)
                &&& col < 7
                &&& !disks@.col_full(col as int)
                &&& final(self).mode == old(self).mode
            },
            old(self).mode.searcher() is Some && asks_computer(selected_col, *disks, can_move) ==> {
                &&& res.0 == RequestMoveResult::WillRerenderLater
                &&& final(self).mode.searcher() is Some
                &&& final(self).mode.computer_color() == old(self).mode.computer_color()
                &&& queued(old(self).mode.searcher()->0, final(self).mode.searcher()->0, *disks)
            },
    {
        let ask: bool = selected_col != ConnectionProtocol::UNDO && can_move && !disks.is_full();
        match &mut self.mode {
            SecondPlayerExtensionMode::OnlinePlayer { send_update_as_col_num } => {
                // pass off to the opponent over the network
                let update = Self::update_server(disks, can_move, *send_update_as_col_num, selected_col);
                (RequestMoveResult::WillRerenderLater, Some(update))
            },
            SecondPlayerExtensionMode::AI { ai, .. } => {
                if ask {
                    let res: u8 = match ai {
                        AIPlayer::Random(random) => random.request_move(disks),
                        AIPlayer::BruteForce(brute_force) => brute_force.request_move(disks),
                    };
                    if res < BOARD_WIDTH {
                        (RequestMoveResult::RerenderNow(res), None)
                    } else {
                        (RequestMoveResult::WillRerenderLater, None)
                    }
                } else {
                    (RequestMoveResult::WillRerenderLater, None)
                }
            },
            SecondPlayerExtensionMode::SurvivalMode { ai, .. } => {
                if ask {
                    let res: u8 = ai.request_move(disks);
                    if res < BOARD_WIDTH {
                        (RequestMoveResult::RerenderNow(res), None)
                    } else {
                        (RequestMoveResult::WillRerenderLater, None)
                    }
                } else {
                    (RequestMoveResult::WillRerenderLater, None)
                }
            },
            SecondPlayerExtensionMode::Local => (RequestMoveResult::NoRequestMade, None),
        }
    }

    /// The message that tells the server of the board.
    pub fn update_server(
        disks: &Disks,
        can_move: bool,
        send_update_as_col_num: bool,
        selected_col: u8,
    ) -> (update: GameUpdateMessage)
        ensures
            update == server_update(send_update_as_col_num, selected_col, *disks, can_move),
    {
        if send_update_as_col_num {
            GameUpdateMessage::SimpleMessage(selected_col)
        } else {
            let update = disks.to_game_update(!can_move);
            if selected_col == ConnectionProtocol::UNDO {
                GameUpdateMessage::UndoMove(update)
            } else {
                GameUpdateMessage::BoardState(update)
            }
        }
    }

    /// Asks the survival player to look further ahead from its next move
    /// on. Does nothing if the second player is not a survival player.
    pub fn increment_survival_mode_difficulty(&mut self)
        ensures
            old(self).wf() ==> final(self).wf(),
            !(old(self).mode is SurvivalMode) ==> final(self).mode == old(self).mode,
            old(self).mode is SurvivalMode ==> {
                &&& final(self).mode is SurvivalMode
                &&& final(self).mode.computer_color() == old(self).mode.computer_color()
                &&& final(self).mode.searcher()->0.pending() == old(self).mode.searcher()->0.pending().push(
                    GameUpdateMessage::SimpleMessage(AI_INCREMENT_MESSAGE),
                )
                &&& final(self).mode.searcher()->0.look_ahead() == old(self).mode.searcher()->0.look_ahead()
                &&& final(self).mode.searcher()->0.level() == old(self).mode.searcher()->0.level()
                &&& final(self).mode.searcher()->0.table() == old(self).mode.searcher()->0.table()
            },
    {
        if let SecondPlayerExtensionMode::SurvivalMode { ai, .. } = &mut self.mode {
            ai.increment_difficulty();
        }
    }

    /// Returns whether the second player is a person over the network and
    /// moves can be taken back in this match.
    pub fn undo_enabled_for_online(&self) -> (enabled: bool)
        ensures
            enabled == (self.mode matches SecondPlayerExtensionMode::OnlinePlayer {
                send_update_as_col_num,
            } && !send_update_as_col_num),
    {
        if let SecondPlayerExtensionMode::OnlinePlayer { send_update_as_col_num: no_undo } =
            &self.mode {
            !*no_undo
        } else {
            false
        }
    }

    /// Returns whether the second player is a person over the network.
    pub fn is_online_player(&self) -> (online: bool)
        ensures
            online == (self.mode is OnlinePlayer),
    {
        match &self.mode {
            SecondPlayerExtensionMode::OnlinePlayer { .. } => true,
            _ => false,
        }
    }

    /// Returns whether the second player is a computer player.
    pub fn is_ai(&self) -> (ai: bool)
        ensures
            ai == (self.mode is AI),
    {
        match &self.mode {
            SecondPlayerExtensionMode::AI { .. } => true,
            _ => false,
        }
    }

    /// Returns whether the second player is a survival player.
    pub fn is_survival_mode(&self) -> (survival: bool)
        ensures
            survival == (self.mode is SurvivalMode),
    {
        match &self.mode {
            SecondPlayerExtensionMode::SurvivalMode { .. } => true,
            _ => false,
        }
    }

    /// Returns whether there is no second player.
    pub fn is_none(&self) -> (none: bool)
        ensures
            none == (self.mode is Local),
    {
        match &self.mode {
            SecondPlayerExtensionMode::Local => true,
            _ => false,
        }
    }

    /// Gets the round of the survival player, or `None` if the second player
    /// is not one.
    pub fn get_survival_mode_difficulty(&self) -> (level: Option<u8>)
        ensures
            level == match self.mode {
                SecondPlayerExtensionMode::SurvivalMode { ai, .. } => Some(ai.level()),
                _ => None,
            },
    {
        if let SecondPlayerExtensionMode::SurvivalMode { ai, .. } = &self.mode {
            Some(ai.get_difficulty_level())
        } else {
            None
        }
    }

    /// If the second player is a computer player of the colour `undo_color`,
    /// it takes the other colour.
    pub fn switch_ai_color_if_ai_or_survival(&mut self, undo_color: DiskColor)
        ensures
            final(self).mode.same_kind(&old(self).mode),
            final(self).mode.searcher() == old(self).mode.searcher(),
            final(self).mode.plays_at_random() == old(self).mode.plays_at_random(),
            final(self).mode.computer_color() == if old(self).mode.computer_color() == undo_color {
                undo_color.spec_opposite()
            } else {
                old(self).mode.computer_color()
            },
            old(self).mode is OnlinePlayer || old(self).mode is Local
                ==> final(self).mode == old(self).mode,
            old(self).wf() ==> final(self).wf(),
    {
        match &mut self.mode {
            SecondPlayerExtensionMode::AI { ai_color, .. } => {
                if *ai_color == undo_color {
                    *ai_color = ai_color.opposite();
                }
            },
            SecondPlayerExtensionMode::SurvivalMode { ai_color, .. } => {
                if *ai_color == undo_color {
                    *ai_color = ai_color.opposite();
                }
            },
            _ => {},
        }
    }
}

} // verus!
