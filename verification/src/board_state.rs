//! The state of a game: the board, whose turn it is, the moves made so far,
//! the second player, and the message that the player is shown.

use vstd::prelude::*;
use crate::constants::{BOARD_HEIGHT, BOARD_WIDTH};
use crate::disks::{valid_update, DiskColor, Disks, Error};
use crate::protocol::ConnectionProtocol;
use crate::second_player_extension::{
    asks_computer, queued, server_update, SecondPlayerExtension, SecondPlayerExtensionMode,
};
use crate::util::{
    GameScreen, GameUpdateMessage, InfoMessage, RequestMoveResult, SecondPlayerAIMode,
    SecondPlayerSurvivalAIMode,
};

verus! {

/// What is known of the move that the message is for.
#[derive(Debug, Clone, Copy, PartialEq, Eq, Structural)]
pub enum UpdateInfoMessageVariant {
    GameWon,
    Undo,
    NoChange,
}

/// The message for a board with `num_disks` disks: a draw on a full board,
/// else the winner, who moved last, or the player whose turn it is.
pub open spec fn info_for(num_disks: int, game_won: bool) -> InfoMessage {
    if num_disks == 42 {
        InfoMessage::Draw
    } else if num_disks % 2 == 0 {
        if game_won {
            InfoMessage::P2Win
        } else {
            InfoMessage::P1Turn
        }
    } else {
        if game_won {
            InfoMessage::P1Win
        } else {
            InfoMessage::P2Turn
        }
    }
}

/// The words that tell whose turn it is or who won, for the first
/// (`first` true) or the second player, as a client in a game over the
/// network reads them, or with a computer player of the colour `ai_color`,
/// or at one screen.
pub open spec fn turn_text(
    first: bool,
    win: bool,
    mode: SecondPlayerExtensionMode,
    current_player: DiskColor,
) -> Seq<char> {
    match mode {
        SecondPlayerExtensionMode::OnlinePlayer { .. } => {
            if current_player == DiskColor::Empty {
                if win {
                    "Red wins."@
                } else if first {
                    "Red's turn."@
                } else {
                    "Yellow's turn."@
                }
            } else if (current_player == DiskColor::P1) == first {
                if win {
                    "You win!"@
                } else {
                    "Your turn"@
                }
            } else {
                if win {
                    "You lose."@
                } else {
                    "Opponent's turn."@
                }
            }
        },
        SecondPlayerExtensionMode::Local => {
            if win {
                if first {
                    "Red wins!"@
                } else {
                    "Yellow wins!"@
                }
            } else {
                if first {
                    "Red's turn."@
                } else {
                    "Yellow's turn."@
                }
            }
        },
        _ => {
            if (mode.computer_color() == DiskColor::P2) == first {
                if win {
                    "You win!"@
                } else {
                    "Your turn."@
                }
            } else {
                if win {
                    "AI wins."@
                } else {
                    "AI's turn."@
                }
            }
        },
    }
}

/// The style class and the words of the message that the player is shown.
pub open spec fn info_text(
    info: InfoMessage,
    mode: SecondPlayerExtensionMode,
    current_player: DiskColor,
) -> (Seq<char>, Seq<char>) {
    match info {
        InfoMessage::P1Turn => ("utility-text-p1"@, turn_text(true, false, mode, current_player)),
        InfoMessage::P2Turn => ("utility-text-p2"@, turn_text(false, false, mode, current_player)),
        InfoMessage::P1Win => ("utility-text-p1"@, turn_text(true, true, mode, current_player)),
        InfoMessage::P2Win => ("utility-text-p2"@, turn_text(false, true, mode, current_player)),
        InfoMessage::Draw => ("utility-text-plain"@, "Draw."@),
        InfoMessage::WaitingForOpponent => ("utility-text-plain"@, "Waiting for opponent..."@),
        InfoMessage::Connecting => ("utility-text-plain"@, "Connecting..."@),
        InfoMessage::ConnectionFailed => ("utility-text-plain"@, "Connection failed."@),
        InfoMessage::NoMessage => ("utility-text-plain"@, ""@),
    }
}

/// The board, and what else the parts of the game need to know of it.
pub struct BoardState {
    pub disks: Disks,
    pub can_move: bool,
    /// The player that this client plays. The turn that the board records
    /// serves to draw the disks; the two are not always the same.
    pub current_player: DiskColor,
    pub game_history: [u8; 42],
    pub num_moves: u8,
    pub second_player_extension: SecondPlayerExtension,
    pub info_message: InfoMessage,
}

impl BoardState {
    /// The board is one that play can produce, the moves made fit the
    /// history, every column of the history is one of the board, and the
    /// second player is well-formed.
    pub open spec fn wf(&self) -> bool {
        &&& self.disks.wf()
        &&& self.num_moves <= 42
        &&& self.second_player_extension.wf()
        &&& forall|i: int| 0 <= i < 42 ==> #[trigger] self.game_history@[i] < 7
    }

    /// Whether `after` is the state after a disk of the side to move fell
    /// into the open column `col`: the game is over where the move wins or
    /// fills the history, the player changes unless the second player is a
    /// person over the network, and the move is written down.
    pub open spec fn moved(self, after: BoardState, col: u8) -> bool {
        &&& after.disks == self.disks.spec_drop(col)
        &&& after.can_move == (self.can_move && !after.disks.spec_won() && self.num_moves + 1 != 42)
        &&& after.current_player == if self.second_player_extension.mode is OnlinePlayer {
            self.current_player
        } else {
            self.current_player.spec_opposite()
        }
        &&& after.game_history@ == self.game_history@.update(self.num_moves as int, col)
        &&& after.num_moves == self.num_moves + 1
        &&& after.second_player_extension == self.second_player_extension
        &&& after.info_message == info_for(after.disks@.num_disks(), after.disks.spec_won())
    }

    /// Whether the state can take the message: a board that play can
    /// produce, or a single byte which, where it names a column, names an
    /// open one while the history has room.
    pub open spec fn can_receive(self, msg: GameUpdateMessage) -> bool {
        match msg {
            GameUpdateMessage::BoardState(update) => valid_update(update),
            GameUpdateMessage::SimpleMessage(byte) => byte <= ConnectionProtocol::COL_6
                ==> !self.disks@.col_full(byte as int) && self.num_moves < 42,
            _ => false,
        }
    }

    /// Whether `after` is the state after the message of the second player
    /// was taken in.
    ///
    /// A board replaces the board. Unless the game is won, a player may move
    /// when it is the turn of its colour, and the message names the turn;
    /// where it is won the message names the winner, who is not to move.
    /// The bytes of the server say which player this client is, that the
    /// second player joined, or that the connection failed. A column is the
    /// move of the second player: it is made, and unless it wins the game a
    /// move can be made again. Any other byte changes nothing.
    pub open spec fn received(self, after: BoardState, msg: GameUpdateMessage) -> bool {
        match msg {
            GameUpdateMessage::BoardState(update) => {
                &&& after.disks.mask_bits() == update.mask
                &&& after.disks.position_bits() == update.position
                &&& after.disks.p1_to_move() == update.is_p1_turn
                &&& after.can_move == if !update.game_won && self.current_player
                    != DiskColor::Empty {
                    update.is_p1_turn == (self.current_player == DiskColor::P1)
                } else {
                    self.can_move
                }
                &&& after.info_message == if update.game_won {
                    if update.is_p1_turn {
                        InfoMessage::P2Win
                    } else {
                        InfoMessage::P1Win
                    }
                } else {
                    if update.is_p1_turn {
                        InfoMessage::P1Turn
                    } else {
                        InfoMessage::P2Turn
                    }
                }
                &&& after.current_player == self.current_player
                &&& after.game_history == self.game_history
                &&& after.num_moves == self.num_moves
                &&& after.second_player_extension == self.second_player_extension
            },
            GameUpdateMessage::SimpleMessage(byte) => {
                if byte <= ConnectionProtocol::COL_6 {
                    exists|mid: BoardState|
                        {
                            &&& #[trigger] self.moved(mid, byte)
                            &&& after.can_move == (mid.can_move || !mid.disks.spec_won())
                            &&& after.disks == mid.disks
                            &&& after.current_player == mid.current_player
                            &&& after.game_history == mid.game_history
                            &&& after.num_moves == mid.num_moves
                            &&& after.second_player_extension == mid.second_player_extension
                            &&& after.info_message == mid.info_message
                        }
                } else {
                    &&& after.disks == self.disks
                    &&& after.game_history == self.game_history
                    &&& after.num_moves == self.num_moves
                    &&& after.second_player_extension == self.second_player_extension
                    &&& after.current_player == if byte == ConnectionProtocol::IS_PLAYER_1 {
                        DiskColor::P1
                    } else if byte == ConnectionProtocol::IS_PLAYER_2 {
                        DiskColor::P2
                    } else if byte == ConnectionProtocol::IS_SPECTATOR {
                        DiskColor::Empty
                    } else {
                        self.current_player
                    }
                    &&& after.can_move == if byte == ConnectionProtocol::IS_PLAYER_1 || byte
                        == ConnectionProtocol::IS_PLAYER_2 || byte
                        == ConnectionProtocol::IS_SPECTATOR {
                        false
                    } else if byte == ConnectionProtocol::SECOND_PLAYER_CONNECTED
                        && self.current_player == DiskColor::P1 {
                        true
                    } else {
                        self.can_move
                    }
                    &&& after.info_message == if byte == ConnectionProtocol::IS_PLAYER_1 {
                        InfoMessage::WaitingForOpponent
                    } else if byte == ConnectionProtocol::IS_PLAYER_2 {
                        InfoMessage::P1Turn
                    } else if byte == ConnectionProtocol::IS_SPECTATOR {
                        if self.num_moves % 2 == 0 {
                            InfoMessage::P1Turn
                        } else {
                            InfoMessage::P2Turn
                        }
                    } else if byte == ConnectionProtocol::SECOND_PLAYER_CONNECTED {
                        if self.current_player == DiskColor::P1 {
                            InfoMessage::P1Turn
                        } else {
                            self.info_message
                        }
                    } else if byte == ConnectionProtocol::CONNECTION_FAILURE {
                        InfoMessage::ConnectionFailed
                    } else {
                        self.info_message
                    }
                }
            },
            _ => true,
        }
    }

    /// Handles all the board changes that a message from the second player
    /// asks for: see `received`.
    pub fn update_state_from_second_player_message(&mut self, msg: GameUpdateMessage)
        requires
            old(self).wf(),
            old(self).can_receive(msg),
        ensures
            final(self).wf(),
            old(self).received(*final(self), msg),
    {
        match msg {
            GameUpdateMessage::BoardState(update) => {
                // after a move that does not win, the client whose turn it is can move
                if !update.game_won {
                    if self.current_player != DiskColor::Empty {
                        self.can_move = update.is_p1_turn == (self.current_player == DiskColor::P1);
                    }
                    self.info_message =
                    if update.is_p1_turn {
                        InfoMessage::P1Turn
                    } else {
                        InfoMessage::P2Turn
                    };
                } else {
                    self.info_message =
                    if update.is_p1_turn {
                        InfoMessage::P2Win
                    } else {
                        InfoMessage::P1Win
                    };
                }
                // update the board
                self.disks = Disks::from(update);
            },
            GameUpdateMessage::SimpleMessage(msg) => {
                if msg == ConnectionProtocol::IS_PLAYER_1 {
                    self.current_player = DiskColor::P1;
                    self.can_move = false;
                    self.info_message = InfoMessage::WaitingForOpponent;
                } else if msg == ConnectionProtocol::IS_PLAYER_2 {
                    self.current_player = DiskColor::P2;
                    self.can_move = false;
                    self.info_message = InfoMessage::P1Turn;
                } else if msg == ConnectionProtocol::IS_SPECTATOR {
                    self.current_player = DiskColor::Empty;
                    self.can_move = false;
                    // the spectator may join in the middle of the game
                    if self.num_moves % 2 == 0 {
                        self.info_message = InfoMessage::P1Turn;
                    } else {
                        self.info_message = InfoMessage::P2Turn;
                    }
                } else if msg == ConnectionProtocol::SECOND_PLAYER_CONNECTED {
                    if self.current_player == DiskColor::P1 {
                        self.can_move = true;
                        self.info_message = InfoMessage::P1Turn;
                    }
                } else if msg == ConnectionProtocol::CONNECTION_FAILURE {
                    self.info_message = InfoMessage::ConnectionFailed;
                } else if msg <= ConnectionProtocol::COL_6 {
                    let _ = self.make_move(msg);
                    let ghost mid = *self;
                    if !self.disks.check_last_drop_won() {
                        self.can_move = true;
                    }
                    assert(old(self).moved(mid, msg));
                }
            },
            _ => {},
        }
    }

    /// Whether `after` is the state after the move of the second player into
    /// `col` was taken in as a message would be; where the history has no
    /// room, the state as it was.
    pub open spec fn took_move(self, after: BoardState, col: u8) -> bool {
        if self.num_moves < 42 {
            self.received(after, GameUpdateMessage::SimpleMessage(col))
        } else {
            after == self
        }
    }

    /// Whether `after` is the state after the game was handed to the second
    /// player, `selected_col` having been played or, where it is the undo
    /// byte, taken back, with `outgoing` the message for the server.
    ///
    /// With no second player nothing changes. A person over the network is
    /// sent the board, and no move can be made until the answer comes,
    /// unless a move was taken back. A computer player that is not asked, or
    /// that answers later, likewise. The random player answers at once:
    /// its move, into an open column, is taken in as a message would be,
    /// where the history has room.
    pub open spec fn handed_off(
        self,
        after: BoardState,
        selected_col: u8,
        outgoing: Option<GameUpdateMessage>,
    ) -> bool {
        let mode = self.second_player_extension.mode;
        let asked = asks_computer(selected_col, self.disks, self.can_move);
        if mode.plays_at_random() && asked {
            &&& outgoing is None
            &&& exists|col: u8|
                col < 7 && !self.disks@.col_full(col as int) && #[trigger] self.took_move(
                    after,
                    col,
                )
        } else {
            &&& after.disks == self.disks
            &&& after.current_player == self.current_player
            &&& after.game_history == self.game_history
            &&& after.num_moves == self.num_moves
            &&& after.info_message == self.info_message
            &&& after.can_move == (self.can_move && (mode is Local || selected_col
                == ConnectionProtocol::UNDO))
            &&& outgoing == match mode {
                SecondPlayerExtensionMode::OnlinePlayer { send_update_as_col_num } => Some(
                    server_update(send_update_as_col_num, selected_col, self.disks, self.can_move),
                ),
                _ => None,
            }
            &&& if mode.searcher() is Some && asked {
                &&& after.second_player_extension.mode.searcher() is Some
                &&& after.second_player_extension.mode.same_kind(&mode)
                &&& after.second_player_extension.mode.computer_color() == mode.computer_color()
                &&& queued(
                    mode.searcher()->0,
                    after.second_player_extension.mode.searcher()->0,
                    self.disks,
                )
            } else {
                after.second_player_extension == self.second_player_extension
            }
        }
    }

    /// Hands the game to the second player and gives the message that is to
    /// be sent to the server, where there is one: see `handed_off`.
    pub fn handoff_to_second_player(&mut self, selected_col: u8) -> (outgoing: Option<
        GameUpdateMessage,
    >)
        requires
            old(self).wf(),
        ensures
            final(self).wf(),
            old(self).handed_off(*final(self), selected_col, outgoing),
    {
        let (res, outgoing) = self.second_player_extension.request_move(
            selected_col,
            &self.disks,
            self.can_move,
        );
        if selected_col != ConnectionProtocol::UNDO && res == RequestMoveResult::WillRerenderLater {
            self.can_move = false;
        }
        if let RequestMoveResult::RerenderNow(col) = res {
            assert(*self == *old(self));
            if self.num_moves < 42 {
                self.update_state_from_second_player_message(GameUpdateMessage::SimpleMessage(col));
            }
            assert(old(self).took_move(*self, col));
        }
        outgoing
    }

    /// Whether `after` is the state with which a new round of survival mode
    /// begins: an empty board, an empty history, and a player that is asked
    /// to look further ahead.
    pub open spec fn next_round(self, after: BoardState) -> bool {
        &&& after.disks == Disks::spec_empty()
        &&& forall|i: int| 0 <= i < 42 ==> after.game_history@[i] == 0
        &&& after.num_moves == 0
        &&& after.can_move
        &&& after.current_player == self.current_player
        &&& after.info_message == self.info_message
        &&& after.second_player_extension.mode is SurvivalMode
        &&& after.second_player_extension.mode.computer_color()
            == self.second_player_extension.mode.computer_color()
        &&& after.second_player_extension.mode.searcher()->0.pending()
            == self.second_player_extension.mode.searcher()->0.pending().push(
            GameUpdateMessage::SimpleMessage(crate::ai::util::AI_INCREMENT_MESSAGE),
        )
        &&& after.second_player_extension.mode.searcher()->0.look_ahead()
            == self.second_player_extension.mode.searcher()->0.look_ahead()
        &&& after.second_player_extension.mode.searcher()->0.level()
            == self.second_player_extension.mode.searcher()->0.level()
        &&& after.second_player_extension.mode.searcher()->0.table()
            == self.second_player_extension.mode.searcher()->0.table()
    }

    /// Makes the move of the current player in the given column and hands
    /// the game to the second player. Fails, and changes nothing, where the
    /// column is full. In survival mode a move that ends the game begins a
    /// new round instead. Gives the message that is to be sent to the
    /// server, where there is one.
    pub fn make_move_and_handoff_to_second_player(&mut self, selected_col: u8) -> (res: Result<
        Option<GameUpdateMessage>,
        Error,
    >)
        requires
            old(self).wf(),
            selected_col < BOARD_WIDTH,
            old(self).num_moves < 42,
        ensures
            final(self).wf(),
            old(self).disks@.col_full(selected_col as int) ==> res == Err::<
                Option<GameUpdateMessage>,
                Error,
            >(Error::ColumnFull) && *final(self) == *old(self),
            !old(self).disks@.col_full(selected_col as int) ==> res is Ok && exists|mid: BoardState|
                {
                    &&& #[trigger] old(self).moved(mid, selected_col)
                    &&& if !mid.can_move && mid.second_player_extension.mode is SurvivalMode {
                        res->Ok_0 is None && mid.next_round(*final(self))
                    } else {
                        mid.handed_off(*final(self), selected_col, res->Ok_0)
                    }
                },
    {
        match self.make_move(selected_col) {
            Err(e) => { return Err(e); },
            Ok(_) => {},
        }
        let ghost mid = *self;
        if !self.can_move && self.second_player_extension.is_survival_mode() {
            self.second_player_extension.increment_survival_mode_difficulty();
            self.disks = Disks::default();
            self.game_history = [0u8;42];
            self.num_moves = 0;
            self.can_move = true;
            assert(old(self).moved(mid, selected_col));
            Ok(None)
        } else {
            // hand off to the second player
            let outgoing = self.handoff_to_second_player(selected_col);
            assert(old(self).moved(mid, selected_col));
            Ok(outgoing)
        }
    }

    /// Takes note that what `make_move_and_handoff_to_second_player` gave for
    /// the server could not be sent: nothing was handed over, so a move can
    /// be made as after the move itself. `could_move` says whether a move
    /// could be made before the move.
    pub fn handoff_failed(&mut self, could_move: bool)
        requires
            old(self).disks.wf(),
        ensures
            final(self).can_move == (could_move && !old(self).disks.spec_won() && old(self).num_moves != 42),
            final(self).disks == old(self).disks,
            final(self).current_player == old(self).current_player,
            final(self).game_history == old(self).game_history,
            final(self).num_moves == old(self).num_moves,
            final(self).second_player_extension == old(self).second_player_extension,
            final(self).info_message == old(self).info_message,
            old(self).wf() ==> final(self).wf(),
    {
        self.can_move = could_move && !self.disks.check_last_drop_won() && self.num_moves != 42;
    }

    /// After a move that was made and handed to a person over the network,
    /// what `handoff_failed` sets is whether a move could be made after the
    /// move itself.
    pub proof fn lemma_handoff_failed(
        before: BoardState,
        mid: BoardState,
        after: BoardState,
        col: u8,
        outgoing: Option<GameUpdateMessage>,
    )
        requires
            before.moved(mid, col),
            mid.handed_off(after, col, outgoing),
            outgoing is Some,
        ensures
            mid.can_move == (before.can_move && !after.disks.spec_won() && after.num_moves != 42),
    {
    }

    /// Whether the last move of the history can be taken back: no move was
    /// made, or the column of the last move is empty, or its top disk
    /// belongs to the player who moved last.
    pub open spec fn can_undo(self) -> bool {
        let col = self.game_history@[self.num_moves - 1] as int;
        let height = self.disks@.height(col);
        self.num_moves == 0 || height == 0 || self.disks@.at(height - 1, col)
            == self.disks@.last_mover()
    }

    /// Whether the last move of the history can be taken back.
    pub fn undo_possible(&self) -> (possible: bool)
        requires
            self.wf(),
        ensures
            possible == self.can_undo(),
    {
        if self.num_moves == 0 {
            return true;
        }
        let col: u8 = self.game_history[(self.num_moves - 1) as usize];
        let height: u8 = self.disks.first_opening_in_col(col);
        if height == 0 {
            return true;
        }
        let top: DiskColor = self.disks.get_disk(height - 1, col);
        let last_mover: DiskColor = if self.disks.get_is_p1_turn() {
            DiskColor::P2
        } else {
            DiskColor::P1
        };
        top == last_mover
    }

    /// Whether `mid` is the state after the last move of the history was
    /// taken back, before the game is handed to the second player: moves can
    /// be made again, the top disk of the column of the move is gone, and
    /// unless the second player is a person over the network the player
    /// changes, and with it the colour of a computer player that had the
    /// colour of the move.
    pub open spec fn undone(self, mid: BoardState) -> bool {
        let col = self.game_history@[self.num_moves - 1];
        let online = self.second_player_extension.mode is OnlinePlayer;
        let undo_color = if self.num_moves % 2 == 0 {
            DiskColor::P2
        } else {
            DiskColor::P1
        };
        &&& mid.can_move
        &&& mid.num_moves == self.num_moves - 1
        &&& mid.game_history == self.game_history
        &&& mid.disks == self.disks.spec_undo(col)
        &&& mid.info_message == info_for(mid.disks@.num_disks(), false)
        &&& mid.current_player == if online {
            self.current_player
        } else {
            self.current_player.spec_opposite()
        }
        &&& mid.second_player_extension.mode.same_kind(&self.second_player_extension.mode)
        &&& mid.second_player_extension.mode.searcher()
            == self.second_player_extension.mode.searcher()
        &&& mid.second_player_extension.mode.computer_color() == if !online
            && self.second_player_extension.mode.computer_color() == undo_color {
            undo_color.spec_opposite()
        } else {
            self.second_player_extension.mode.computer_color()
        }
        &&& online || self.second_player_extension.mode is Local
            ==> mid.second_player_extension == self.second_player_extension
    }

    /// Undoes the last move and hands the game to the second player. Does
    /// nothing at the start of the game. Gives the message that is to be
    /// sent to the server, where there is one.
    pub fn undo_move_and_handoff_to_second_player(&mut self) -> (outgoing: Option<
        GameUpdateMessage,
    >)
        requires
            old(self).wf(),
            old(self).can_undo(),
        ensures
            final(self).wf(),
            old(self).num_moves == 0 ==> outgoing is None && *final(self) == *old(self),
            old(self).num_moves > 0 ==> exists|mid: BoardState|
                {
                    &&& #[trigger] old(self).undone(mid)
                    &&& mid.handed_off(*final(self), ConnectionProtocol::UNDO, outgoing)
                },
    {
        // at the start of the game
        if self.num_moves == 0 {
            return None;
        }
        if !self.second_player_extension.is_online_player() {
            // revert to the previous player
            self.current_player = self.current_player.opposite();
            self.second_player_extension.switch_ai_color_if_ai_or_survival(
                if self.num_moves % 2 == 0 {
                    DiskColor::P2
                } else {
                    DiskColor::P1
                },
            );
        }
        self.can_move = true;  // undoes a win, so that moves can be made again
        self.num_moves -= 1;
        let col: u8 = self.game_history[self.num_moves as usize];
        self.disks.rm_disk_from_col(col);
        self.update_info_message(UpdateInfoMessageVariant::Undo);
        let ghost mid = *self;
        assert(old(self).undone(mid));
        self.handoff_to_second_player(ConnectionProtocol::UNDO)
    }

    /// Resets the board, and takes a person over the network as second
    /// player where the connection to the server was made.
    pub fn init_online(&mut self, connected: bool)
        ensures
            final(self).wf(),
            final(self).disks == Disks::spec_empty(),
            final(self).can_move,
            final(self).current_player == DiskColor::P1,
            final(self).num_moves == 0,
            connected ==> final(self).second_player_extension.mode == (
            SecondPlayerExtensionMode::OnlinePlayer { send_update_as_col_num: false }),
            connected ==> final(self).info_message == InfoMessage::Connecting,
            !connected ==> final(self).second_player_extension.mode is Local,
            !connected ==> final(self).info_message == InfoMessage::ConnectionFailed,
    {
        self.reset();
        self.info_message = InfoMessage::Connecting;
        self.second_player_extension.init_online(connected);
        if self.second_player_extension.mode.eq(&SecondPlayerExtensionMode::Local) {
            self.info_message = InfoMessage::ConnectionFailed;
        }
    }

    /// Resets the board, and takes a computer player as second player.
    pub fn init_ai(&mut self, ai_type: SecondPlayerAIMode)
        ensures
            final(self).wf(),
            final(self).disks == Disks::spec_empty(),
            final(self).can_move,
            final(self).current_player == DiskColor::P1,
            final(self).num_moves == 0,
            final(self).info_message == InfoMessage::P1Turn,
            final(self).second_player_extension.mode is AI,
            final(self).second_player_extension.mode.computer_color() == DiskColor::P2,
            ai_type == SecondPlayerAIMode::Random
                ==> final(self).second_player_extension.mode.plays_at_random(),
            ai_type == SecondPlayerAIMode::BruteForce
                ==> final(self).second_player_extension.mode.searcher() is Some,
            ai_type == SecondPlayerAIMode::BruteForce
                ==> final(self).second_player_extension.mode.searcher()->0.is_fresh(20),
    {
        self.reset();
        self.second_player_extension.init_ai(ai_type);
    }

    /// Resets the board, and takes a survival player as second player.
    pub fn init_survival(&mut self, ai_type: SecondPlayerSurvivalAIMode)
        ensures
            final(self).wf(),
            final(self).disks == Disks::spec_empty(),
            final(self).can_move,
            final(self).current_player == DiskColor::P1,
            final(self).num_moves == 0,
            final(self).info_message == InfoMessage::P1Turn,
            final(self).second_player_extension.mode is SurvivalMode,
            final(self).second_player_extension.mode.computer_color() == DiskColor::P2,
            final(self).second_player_extension.mode.searcher()->0.is_fresh(1),
    {
        self.reset();
        self.second_player_extension.init_survival(ai_type);
    }

    /// The kind of second player.
    pub fn get_second_player_mode(&self) -> (mode: &SecondPlayerExtensionMode)
        ensures
            *mode == self.second_player_extension.mode,
    {
        &self.second_player_extension.mode
    }

    /// Gets the style class and the words of the message to show, from the
    /// state as it stands.
    pub fn get_color_and_message_str(&self) -> (text: (&'static str, &'static str))
        ensures
            text.0@ == info_text(
                self.info_message,
                self.second_player_extension.mode,
                self.current_player,
            ).0,
            text.1@ == info_text(
                self.info_message,
                self.second_player_extension.mode,
                self.current_player,
            ).1,
    {
        match self.info_message {
            InfoMessage::P1Turn => (
                "utility-text-p1",
                match self.get_second_player_mode() {
                    SecondPlayerExtensionMode::OnlinePlayer { .. } => match self.current_player {
                        DiskColor::P1 => "Your turn",
                        DiskColor::P2 => "Opponent's turn.",
                        DiskColor::Empty => "Red's turn.",
                    },
                    SecondPlayerExtensionMode::AI { ai_color, .. } => {
                        if *ai_color == DiskColor::P2 {
                            "Your turn."
                        } else {
                            "AI's turn."
                        }
                    },
                    SecondPlayerExtensionMode::SurvivalMode { ai_color, .. } => {
                        if *ai_color == DiskColor::P2 {
                            "Your turn."
                        } else {
                            "AI's turn."
                        }
                    },
                    SecondPlayerExtensionMode::Local => "Red's turn.",
                },
            ),
            InfoMessage::P2Turn => (
                "utility-text-p2",
                match self.get_second_player_mode() {
                    SecondPlayerExtensionMode::OnlinePlayer { .. } => match self.current_player {
                        DiskColor::P1 => "Opponent's turn.",
                        DiskColor::P2 => "Your turn",
                        DiskColor::Empty => "Yellow's turn.",
                    },
                    SecondPlayerExtensionMode::AI { ai_color, .. } => {
                        if *ai_color == DiskColor::P2 {
                            "AI's turn."
                        } else {
                            "Your turn."
                        }
                    },
                    SecondPlayerExtensionMode::SurvivalMode { ai_color, .. } => {
                        if *ai_color == DiskColor::P2 {
                            "AI's turn."
                        } else {
                            "Your turn."
                        }
                    },
                    SecondPlayerExtensionMode::Local => "Yellow's turn.",
                },
            ),
            InfoMessage::P1Win => (
                "utility-text-p1",
                match self.get_second_player_mode() {
                    SecondPlayerExtensionMode::OnlinePlayer { .. } => match self.current_player {
                        DiskColor::P1 => "You win!",
                        DiskColor::P2 => "You lose.",
                        DiskColor::Empty => "Red wins.",
                    },
                    SecondPlayerExtensionMode::AI { ai_color, .. } => {
                        if *ai_color == DiskColor::P2 {
                            "You win!"
                        } else {
                            "AI wins."
                        }
                    },
                    SecondPlayerExtensionMode::SurvivalMode { ai_color, .. } => {
                        if *ai_color == DiskColor::P2 {
                            "You win!"
                        } else {
                            "AI wins."
                        }
                    },
                    SecondPlayerExtensionMode::Local => "Red wins!",
                },
            ),
            InfoMessage::P2Win => (
                "utility-text-p2",
                match self.get_second_player_mode() {
                    SecondPlayerExtensionMode::OnlinePlayer { .. } => match self.current_player {
                        DiskColor::P1 => "You lose.",
                        DiskColor::P2 => "You win!",
                        DiskColor::Empty => "Red wins.",
                    },
                    SecondPlayerExtensionMode::AI { ai_color, .. } => {
                        if *ai_color == DiskColor::P2 {
                            "AI wins."
                        } else {
                            "You win!"
                        }
                    },
                    SecondPlayerExtensionMode::SurvivalMode { ai_color, .. } => {
                        if *ai_color == DiskColor::P2 {
                            "AI wins."
                        } else {
                            "You win!"
                        }
                    },
                    SecondPlayerExtensionMode::Local => "Yellow wins!",
                },
            ),
            InfoMessage::Draw => ("utility-text-plain", "Draw."),
            InfoMessage::WaitingForOpponent => ("utility-text-plain", "Waiting for opponent..."),
            InfoMessage::Connecting => ("utility-text-plain", "Connecting..."),
            InfoMessage::ConnectionFailed => ("utility-text-plain", "Connection failed."),
            InfoMessage::NoMessage => ("utility-text-plain", ""),
        }
    }

    /// Whether a player in a game over the network can take back its last
    /// move: see `online_undo_available`.
    pub open spec fn spec_online_undo_available(&self) -> bool {
        &&& !self.can_move != (self.disks.spec_won() && (self.disks.p1_to_move() == (
        self.current_player == DiskColor::P1)))
        &&& self.second_player_extension.mode matches SecondPlayerExtensionMode::OnlinePlayer {
            send_update_as_col_num,
        } && !send_update_as_col_num
        &&& self.num_moves != 0
    }

    /// Whether a player in a game over the network can take back its last
    /// move: the server has to allow it, a move has to have been made, and
    /// either the game was just won by this player, who then still cannot
    /// move, or a move cannot be made because it is the turn of the other.
    pub fn online_undo_available(&self) -> (available: bool)
        requires
            self.disks.wf(),
        ensures
            available == self.spec_online_undo_available(),
    {
        (!self.can_move != (self.disks.check_last_drop_won() && self.disks.get_is_p1_turn() == (
        self.current_player == DiskColor::P1)))
            && self.second_player_extension.undo_enabled_for_online() && self.num_moves != 0
    }

    /// Whether a game is played on the screen, so that disks can be dropped
    /// and the game can be quit.
    pub fn in_game(screen: GameScreen) -> (playing: bool)
        ensures
            playing == (screen != GameScreen::Menu),
    {
        match screen {
            GameScreen::LocalMultiplayer
            | GameScreen::VersusBot
            | GameScreen::OnlineMultiplayer => true,
            GameScreen::Menu => false,
        }
    }

    /// Whether the button that takes a move back is shown: at one screen and
    /// against a computer once a move was made, over the network where the
    /// player can take back its last move, and never in a menu.
    pub fn undo_shown(&self, screen: GameScreen) -> (shown: bool)
        requires
            self.disks.wf(),
        ensures
            shown == match screen {
                GameScreen::LocalMultiplayer | GameScreen::VersusBot => self.num_moves != 0,
                GameScreen::OnlineMultiplayer => self.spec_online_undo_available(),
                GameScreen::Menu => false,
            },
    {
        match screen {
            GameScreen::LocalMultiplayer | GameScreen::VersusBot => self.num_moves != 0,
            GameScreen::OnlineMultiplayer => self.online_undo_available(),
            GameScreen::Menu => false,
        }
    }

    /// Whether a disk can be dropped into `col` by hand: in a game, while
    /// moves can be made, into a column that is not full.
    pub fn column_accepts_input(&self, in_game: bool, col: u8) -> (accepts: bool)
        requires
            col < BOARD_WIDTH,
        ensures
            accepts == (in_game && self.can_move && !self.disks@.col_full(col as int)),
    {
        in_game && self.can_move && !self.disks.is_col_full(col)
    }

    /// Leaves the game for a menu: there is no second player and no
    /// message; the board stays.
    pub fn enter_menu(&mut self)
        ensures
            final(self).second_player_extension.mode is Local,
            final(self).info_message == InfoMessage::NoMessage,
            final(self).disks == old(self).disks,
            final(self).can_move == old(self).can_move,
            final(self).current_player == old(self).current_player,
            final(self).game_history == old(self).game_history,
            final(self).num_moves == old(self).num_moves,
            old(self).wf() ==> final(self).wf(),
    {
        self.second_player_extension.remove_extension();
        self.info_message = InfoMessage::NoMessage;
    }

    /// Creates a new empty board with no second player.
    pub fn new() -> (state: Self)
        ensures
            state.wf(),
            state.disks == Disks::spec_empty(),
            state.disks@.well_shaped(),
            state.disks@.is_p1_turn,
            forall|r: int, c: int| state.disks@.at(r, c) == DiskColor::Empty,
            state.can_move,
            state.current_player == DiskColor::P1,
            state.num_moves == 0,
            state.second_player_extension.mode is Local,
            state.info_message == InfoMessage::NoMessage,
    {
        BoardState {
            disks: Disks::default(),
            can_move: true,
            current_player: DiskColor::P1,
            game_history: [0;42],
            num_moves: 0,
            second_player_extension: SecondPlayerExtension::new(),
            info_message: InfoMessage::NoMessage,
        }
    }

    /// Resets the board to how it should be at the start of a new game.
    pub fn reset(&mut self)
        ensures
            final(self).wf(),
            final(self).disks == Disks::spec_empty(),
            final(self).disks@.well_shaped(),
            final(self).disks@.is_p1_turn,
            forall|r: int, c: int| final(self).disks@.at(r, c) == DiskColor::Empty,
            final(self).can_move,
            final(self).current_player == DiskColor::P1,
            final(self).num_moves == 0,
            final(self).second_player_extension.mode is Local,
            final(self).info_message == InfoMessage::P1Turn,
            forall|i: int| 0 <= i < 42 ==> final(self).game_history@[i] == 0,
    {
        self.disks = Disks::default();
        self.can_move = true;
        self.current_player = DiskColor::P1;
        self.game_history = [0;42];
        self.num_moves = 0;
        self.second_player_extension.remove_extension();
        self.info_message = InfoMessage::P1Turn;
    }

    /// Does everything required for the next player to make a move in the
    /// given column. Fails, and changes nothing, where the column is full.
    pub fn make_move(&mut self, col: u8) -> (res: Result<(), Error>)
        requires
            old(self).wf(),
            col < BOARD_WIDTH,
            old(self).num_moves < 42,
        ensures
            old(self).disks@.col_full(col as int) ==> res == Err::<(), Error>(Error::ColumnFull)
                && *final(self) == *old(self),
            !old(self).disks@.col_full(col as int) ==> res is Ok && old(self).moved(
                *final(self),
                col,
            ) && final(self).wf() && final(self).disks@ == old(self).disks@.drop(col as int),
    {
        match self.disks.drop_disk(col) {
            Err(e) => { return Err(e); },
            Ok(_) => {},
        }
        let game_won: bool = self.update_can_move_if_won();
        self.update_player_if_not_online();
        self.update_game_history(col);
        self.update_info_message(
            if game_won {
                UpdateInfoMessageVariant::GameWon
            } else {
                UpdateInfoMessageVariant::NoChange
            },
        );
        Ok(())
    }

    /// If not online, set the current player to the next player.
    fn update_player_if_not_online(&mut self)
        ensures
            final(self).current_player == if old(self).second_player_extension.mode
                is OnlinePlayer {
                old(self).current_player
            } else {
                old(self).current_player.spec_opposite()
            },
            final(self).disks == old(self).disks,
            final(self).can_move == old(self).can_move,
            final(self).game_history == old(self).game_history,
            final(self).num_moves == old(self).num_moves,
            final(self).second_player_extension == old(self).second_player_extension,
            final(self).info_message == old(self).info_message,
    {
        if !self.second_player_extension.is_online_player() {
            self.current_player = self.current_player.opposite();
        }
    }

    /// Update the history of moves with the next move.
    fn update_game_history(&mut self, selected_col: u8)
        requires
            old(self).num_moves < 42,
        ensures
            final(self).game_history@ == old(self).game_history@.update(
                old(self).num_moves as int,
                selected_col,
            ),
            final(self).num_moves == old(self).num_moves + 1,
            final(self).can_move == (old(self).can_move && old(self).num_moves + 1 != 42),
            final(self).disks == old(self).disks,
            final(self).current_player == old(self).current_player,
            final(self).second_player_extension == old(self).second_player_extension,
            final(self).info_message == old(self).info_message,
    {
        self.game_history[self.num_moves as usize] = selected_col;
        self.num_moves += 1;
        if self.num_moves == BOARD_WIDTH * BOARD_HEIGHT {
            self.can_move = false;
        }
    }

    /// Sets the message for the board as it stands.
    fn update_info_message(&mut self, variant: UpdateInfoMessageVariant)
        ensures
            final(self).info_message == info_for(
                old(self).disks@.num_disks(),
                variant == UpdateInfoMessageVariant::GameWon,
            ),
            final(self).disks == old(self).disks,
            final(self).can_move == old(self).can_move,
            final(self).current_player == old(self).current_player,
            final(self).game_history == old(self).game_history,
            final(self).num_moves == old(self).num_moves,
            final(self).second_player_extension == old(self).second_player_extension,
    {
        let num_moves: u8 = self.disks.get_num_disks();
        self.info_message =
        if num_moves == 42 {
            InfoMessage::Draw
        } else if num_moves % 2 == 0 {
            if variant == UpdateInfoMessageVariant::GameWon {
                InfoMessage::P2Win
            } else {
                InfoMessage::P1Turn
            }
        } else {
            if variant == UpdateInfoMessageVariant::GameWon {
                InfoMessage::P1Win
            } else {
                InfoMessage::P2Turn
            }
        };
    }

    /// Check if the game has been won, and if so, set `can_move` to false.
    /// Returns true if the game has been won.
    fn update_can_move_if_won(&mut self) -> (won: bool)
        requires
            old(self).disks.wf(),
        ensures
            won == old(self).disks.spec_won(),
            final(self).can_move == (old(self).can_move && !won),
            final(self).disks == old(self).disks,
            final(self).current_player == old(self).current_player,
            final(self).game_history == old(self).game_history,
            final(self).num_moves == old(self).num_moves,
            final(self).second_player_extension == old(self).second_player_extension,
            final(self).info_message == old(self).info_message,
    {
        if self.disks.check_last_drop_won() {
            self.can_move = false;
            return true;
        }
        false
    }
}

} // verus!
