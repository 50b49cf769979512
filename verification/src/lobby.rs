//! What a lobby of the server decides: which part a new client plays, what
//! a listener makes of the bytes it read, and which messages of the players
//! are passed on.

use vstd::prelude::*;
use crate::protocol::ConnectionProtocol;

verus! {

/// Message from the client that holds a game update, and the number of the
/// player that it came from.
#[derive(Debug, Clone)]
pub struct MessageFromClient {
    pub binary: Vec<u8>,
    pub player_num: u8,
}

/// Message from the client, usually to be sent to other clients.
#[derive(Debug)]
pub enum Message {
    BoardState(MessageFromClient),
    SpecialMessage(u8),
}

/// What a lobby keeps of the game: whose turn it is, and the last board
/// that it passed on, for the clients that join later.
pub struct LobbyState {
    pub is_p1_turn: bool,
    pub last_board_state: Vec<u8>,
}

/// What the lobby does with a message.
#[derive(Debug)]
pub enum LobbyAction {
    /// The update is sent to all clients.
    Broadcast(MessageFromClient),
    /// The update is not from the player whose turn it is: nothing happens.
    Ignore,
    /// A player left: the lobby ends.
    Close,
}

/// The part that a new client plays in a lobby.
#[derive(Debug, Clone, Copy, PartialEq, Eq, Structural)]
pub struct ClientRole {
    /// 1 or 2 for a player, 0 for a spectator.
    pub player_num: u8,
    /// The byte that tells the client of its part.
    pub client_type: u8,
    /// Whether the client is sent the last board: it is not the first.
    pub send_last_board: bool,
    /// Whether the lobby is told that the second player has joined.
    pub announce_second_player: bool,
}

/// The part of the client that joins a lobby of `clients` clients: the first
/// two are the players, the others watch.
pub open spec fn role_of(clients: nat) -> ClientRole {
    ClientRole {
        player_num: if clients == 0 {
            1
        } else if clients == 1 {
            2
        } else {
            0
        },
        client_type: if clients == 0 {
            ConnectionProtocol::IS_PLAYER_1
        } else if clients == 1 {
            ConnectionProtocol::IS_PLAYER_2
        } else {
            ConnectionProtocol::IS_SPECTATOR
        },
        send_last_board: clients != 0,
        announce_second_player: clients == 1,
    }
}

/// Tells a new client whether it plays, and as which player, or watches.
pub fn assign_role(clients: usize) -> (role: ClientRole)
    ensures
        role == role_of(clients as nat),
{
    let mut player_num: u8 = 0;
    let mut client_type: u8 = ConnectionProtocol::IS_SPECTATOR;
    // if there are not yet two players, make this client a player
    if clients < 2 {
        if clients == 0 {
            player_num = 1;
            client_type = ConnectionProtocol::IS_PLAYER_1;
        } else {
            player_num = 2;
            client_type = ConnectionProtocol::IS_PLAYER_2;
        }
    }
    ClientRole {
        player_num,
        client_type,
        send_last_board: clients != 0,
        announce_second_player: clients == 1,
    }
}

/// What the listener of a player makes of `read_size` bytes read into
/// `buffer`: a single byte is a special message, a full buffer is a game
/// update of that player, and anything else ends the listening.
pub fn player_message(buffer: &[u8; 14], read_size: usize, player_num: u8) -> (msg: Option<
    Message,
>)
    ensures
        read_size == 1 ==> msg == Some(Message::SpecialMessage(buffer@[0])),
        read_size == 14 ==> (msg matches Some(Message::BoardState(update)) && update.binary@
            == buffer@ && update.player_num == player_num),
        read_size != 1 && read_size != 14 ==> msg is None,
{
    if read_size == 1 {
        Some(Message::SpecialMessage(buffer[0]))
    } else if read_size == ConnectionProtocol::MESSAGE_SIZE {
        let mut binary: Vec<u8> = Vec::with_capacity(14);
        let mut i: usize = 0;
        while i < 14
            invariant
                i <= 14,
                binary@ == buffer@.take(i as int),
            decreases 14 - i,
        {
            binary.push(buffer[i]);
            assert(binary@ =~= buffer@.take(i + 1));
            i += 1;
        }
        assert(buffer@.take(14) =~= buffer@);
        Some(Message::BoardState(MessageFromClient { binary, player_num }))
    } else {
        None
    }
}

/// Whether what the listener of a spectator read says that the spectator
/// leaves: the single byte that ends a connection.
pub fn spectator_leaves(buffer: &[u8; 2], read_size: usize) -> (leaves: bool)
    ensures
        leaves == (read_size == 1 && buffer@[0] == ConnectionProtocol::KILL_CONNECTION),
{
    read_size == 1 && buffer[0] == ConnectionProtocol::KILL_CONNECTION
}

/// Whether a game update of player `from` is written to the client of
/// player `to`: every client but the one that it came from.
pub fn forwards_to(from: u8, to: u8) -> (forward: bool)
    ensures
        forward == (from != to),
{
    from != to
}

/// Where a client that names a lobby goes.
#[derive(Debug, Clone, Copy, PartialEq, Eq, Structural)]
pub enum LobbyRoute {
    /// The lobby exists: the client joins it.
    Join,
    /// The lobby exists and has no name: the client joins it, and the lobby
    /// is closed to others.
    JoinAndClose,
    /// There is no such lobby: one is made and the client joins it.
    Create,
}

/// Decides where a client goes that asks for the lobby `name`.
pub fn route_client(lobby_exists: bool, name: &str) -> (route: LobbyRoute)
    ensures
        route == if !lobby_exists {
            LobbyRoute::Create
        } else if name@.len() == 0 {
            LobbyRoute::JoinAndClose
        } else {
            LobbyRoute::Join
        },
{
    if lobby_exists {
        if name.unicode_len() == 0 {
            LobbyRoute::JoinAndClose
        } else {
            LobbyRoute::Join
        }
    } else {
        LobbyRoute::Create
    }
}

impl Default for LobbyState {
    /// A lobby at the start of a match: the first player is to move, and the
    /// last board is the empty board.
    fn default() -> (state: Self)
        ensures
            state.is_p1_turn,
            state.last_board_state@ == Seq::new(14, |i: int| 0u8),
    {
        let mut last_board_state: Vec<u8> = Vec::with_capacity(14);
        let mut i: usize = 0;
        while i < ConnectionProtocol::MESSAGE_SIZE
            invariant
                i <= 14,
                last_board_state@ == Seq::new(i as nat, |j: int| 0u8),
            decreases 14 - i,
        {
            last_board_state.push(0);
            assert(last_board_state@ =~= Seq::new((i + 1) as nat, |j: int| 0u8));
            i += 1;
        }
        LobbyState { is_p1_turn: true, last_board_state }
    }
}

impl LobbyState {
    /// Whether an update with these bytes from player `player_num` is in
    /// turn: a move comes from the player whose turn it is, and a move taken
    /// back from the player whose turn it was.
    pub open spec fn in_turn(self, binary: Seq<u8>, player_num: u8) -> bool {
        (if binary[10] & 8 != 0 {
            !self.is_p1_turn
        } else {
            self.is_p1_turn
        }) == (player_num == 1)
    }

    /// What the lobby does with a message. A game update in turn is kept as
    /// the last board, hands the turn over and goes to all clients; one out
    /// of turn is passed over. A special message means that a player
    /// left: the lobby ends.
    pub fn handle_message(&mut self, msg: Message) -> (action: LobbyAction)
        requires
            msg is BoardState ==> msg->BoardState_0.binary@.len() > 10,
        ensures
            match msg {
                Message::BoardState(update) => if old(self).in_turn(
                    update.binary@,
                    update.player_num,
                ) {
                    &&& action matches LobbyAction::Broadcast(sent)
                    &&& sent.binary@ == update.binary@
                    &&& sent.player_num == update.player_num
                    &&& final(self).last_board_state@ == update.binary@
                    &&& final(self).is_p1_turn == !old(self).is_p1_turn
                } else {
                    &&& action is Ignore
                    &&& *final(self) == *old(self)
                },
                Message::SpecialMessage(_) => action is Close && *final(self) == *old(self),
            },
    {
        match msg {
            Message::BoardState(state) => {
                let expected_to_be_p1: bool = if ConnectionProtocol::is_undo_move(&state.binary) {
                    !self.is_p1_turn
                } else {
                    self.is_p1_turn
                };
                if expected_to_be_p1 == (state.player_num == 1) {
                    self.last_board_state = copy_bytes(&state.binary);
                    self.is_p1_turn = !self.is_p1_turn;
                    LobbyAction::Broadcast(state)
                } else {
                    LobbyAction::Ignore
                }
            },
            // a special message at this stage means that a player ended the connection
            Message::SpecialMessage(_) => LobbyAction::Close,
        }
    }
}

/// A copy of the bytes.
fn copy_bytes(bytes: &Vec<u8>) -> (copy: Vec<u8>)
    ensures
        copy@ == bytes@,
{
    let mut copy: Vec<u8> = Vec::with_capacity(bytes.len());
    let mut i: usize = 0;
    while i < bytes.len()
        invariant
            i <= bytes@.len(),
            copy@ == bytes@.take(i as int),
        decreases bytes@.len() - i,
    {
        copy.push(bytes[i]);
        assert(copy@ =~= bytes@.take(i + 1));
        i += 1;
    }
    assert(bytes@.take(bytes@.len() as int) =~= bytes@);
    copy
}

} // verus!
