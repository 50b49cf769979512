//! Small types that the parts of the game hand to each other.

use vstd::prelude::*;
use crate::disks::Disks;
use crate::protocol::GameUpdate;

verus! {

/// A message for the second player, or from it.
#[derive(Debug, Clone, Copy, PartialEq, Eq, Structural)]
pub enum GameUpdateMessage {
    BoardState(GameUpdate),
    Disks(Disks),
    SimpleMessage(u8),
    UndoMove(GameUpdate),
}

/// How the move that was asked of the second player will arrive.
#[derive(Debug, Clone, Copy, PartialEq, Eq, Structural)]
pub enum RequestMoveResult {
    WillRerenderLater,
    RerenderNow(u8),
    NoRequestMade,
}

/// The message that the player is shown.
#[derive(Debug, Clone, Copy, PartialEq, Eq, Structural)]
pub enum InfoMessage {
    P1Turn,
    P2Turn,
    P1Win,
    P2Win,
    Draw,
    WaitingForOpponent,
    Connecting,
    ConnectionFailed,
    NoMessage,
}

/// What the player looks at: a menu, or a game of one of three kinds.
#[derive(Debug, Clone, Copy, PartialEq, Eq, Structural)]
pub enum GameScreen {
    Menu,
    LocalMultiplayer,
    VersusBot,
    OnlineMultiplayer,
}

/// The computer players that a single game can be played against.
#[derive(Debug, Clone, Copy, PartialEq, Eq, Structural)]
pub enum SecondPlayerAIMode {
    Random,
    BruteForce,
}

/// The computer players that survival mode can be played against.
#[derive(Debug, Clone, Copy, PartialEq, Eq, Structural)]
pub enum SecondPlayerSurvivalAIMode {
    BruteForce,
}

} // verus!
