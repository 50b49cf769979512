use connect_four::bindings::Board;
use connect_four::disks::{DiskColor, Disks};
use connect_four::lobby::{
    assign_role, forwards_to, player_message, route_client, spectator_leaves,
    ClientRole, LobbyAction, LobbyRoute, LobbyState, Message, MessageFromClient,
};
use connect_four::protocol::{ConnectionProtocol, GameUpdate};

fn update_bytes(undo: bool) -> Vec<u8> {
    let update = GameUpdate { position: 0, mask: 1, is_p1_turn: false, game_won: false };
    if undo {
        ConnectionProtocol::encode_undo_message(update)
    } else {
        ConnectionProtocol::encode_message(update)
    }
}

#[test]
fn first_two_clients_play_and_the_rest_watch() {
    assert_eq!(
        assign_role(0),
        ClientRole {
            player_num: 1,
            client_type: ConnectionProtocol::IS_PLAYER_1,
            send_last_board: false,
            announce_second_player: false,
        }
    );
    assert_eq!(
        assign_role(1),
        ClientRole {
            player_num: 2,
            client_type: ConnectionProtocol::IS_PLAYER_2,
            send_last_board: true,
            announce_second_player: true,
        }
    );
    for clients in [2usize, 3, 40] {
        assert_eq!(
            assign_role(clients),
            ClientRole {
                player_num: 0,
                client_type: ConnectionProtocol::IS_SPECTATOR,
                send_last_board: true,
                announce_second_player: false,
            }
        );
    }
}

#[test]
fn player_listener_tells_bytes_from_updates() {
    let mut buffer = [0u8; 14];
    buffer[0] = 255;
    buffer[13] = 9;
    match player_message(&buffer, 1, 2) {
        Some(Message::SpecialMessage(byte)) => assert_eq!(byte, 255),
        _ => panic!("a single byte is a special message"),
    }
    match player_message(&buffer, 14, 2) {
        Some(Message::BoardState(update)) => {
            assert_eq!(update.binary, buffer.to_vec());
            assert_eq!(update.player_num, 2);
        }
        _ => panic!("fourteen bytes are a game update"),
    }
    assert!(player_message(&buffer, 0, 1).is_none());
    assert!(player_message(&buffer, 13, 1).is_none());
}

#[test]
fn spectator_leaves_on_the_kill_byte_alone() {
    assert!(spectator_leaves(&[255, 0], 1));
    assert!(!spectator_leaves(&[255, 0], 2));
    assert!(!spectator_leaves(&[254, 0], 1));
    assert!(!spectator_leaves(&[255, 0], 0));
}

#[test]
fn updates_go_to_every_client_but_the_sender() {
    assert!(forwards_to(1, 2));
    assert!(forwards_to(1, 0));
    assert!(!forwards_to(2, 2));
}

#[test]
fn clients_are_routed_by_lobby() {
    assert_eq!(route_client(false, "friends"), LobbyRoute::Create);
    assert_eq!(route_client(false, ""), LobbyRoute::Create);
    assert_eq!(route_client(true, "friends"), LobbyRoute::Join);
    assert_eq!(route_client(true, ""), LobbyRoute::JoinAndClose);
}

#[test]
fn lobby_starts_with_the_empty_board() {
    let state = LobbyState::default();
    assert!(state.is_p1_turn);
    assert_eq!(state.last_board_state, vec![0u8; 14]);
}

#[test]
fn lobby_passes_on_moves_in_turn() {
    let mut state = LobbyState::default();
    let first = MessageFromClient { binary: update_bytes(false), player_num: 1 };
    match state.handle_message(Message::BoardState(first.clone())) {
        LobbyAction::Broadcast(sent) => {
            assert_eq!(sent.binary, first.binary);
            assert_eq!(sent.player_num, 1);
        }
        _ => panic!("the first player is to move"),
    }
    assert!(!state.is_p1_turn);
    assert_eq!(state.last_board_state, first.binary);
}

#[test]
fn lobby_passes_over_moves_out_of_turn() {
    let mut state = LobbyState::default();
    let early = MessageFromClient { binary: update_bytes(false), player_num: 2 };
    assert!(matches!(state.handle_message(Message::BoardState(early)), LobbyAction::Ignore));
    assert!(state.is_p1_turn);
    assert_eq!(state.last_board_state, vec![0u8; 14]);
}

#[test]
fn lobby_takes_an_undo_from_the_player_who_moved() {
    let mut state = LobbyState { is_p1_turn: false, last_board_state: update_bytes(false) };
    let other = MessageFromClient { binary: update_bytes(true), player_num: 2 };
    assert!(matches!(state.handle_message(Message::BoardState(other)), LobbyAction::Ignore));
    let undo = MessageFromClient { binary: update_bytes(true), player_num: 1 };
    assert!(matches!(state.handle_message(Message::BoardState(undo)), LobbyAction::Broadcast(_)));
    assert!(state.is_p1_turn);
    assert_eq!(state.last_board_state, update_bytes(true));
}

#[test]
fn lobby_ends_on_a_special_message() {
    let mut state = LobbyState::default();
    let action = state.handle_message(Message::SpecialMessage(ConnectionProtocol::KILL_CONNECTION));
    assert!(matches!(action, LobbyAction::Close));
    assert!(state.is_p1_turn);
}

#[test]
fn grid_of_the_server_becomes_a_game_update() {
    let mut grid = Board::default();
    grid.board[0][3] = DiskColor::P1;
    grid.board[1][3] = DiskColor::P2;
    grid.board[0][0] = DiskColor::P1;
    let bytes = grid.to_game_update_binary(false, true);
    let update = ConnectionProtocol::decode_message(bytes).unwrap();
    assert!(!update.is_p1_turn);
    assert!(update.game_won);
    assert_eq!(update.mask, 1 | (0b11 << 21));
    // the disks of the second player, who is to move
    assert_eq!(update.position, 0b10 << 21);
    let board = Disks::from(update);
    assert_eq!(board.get_disk(0, 3), DiskColor::P1);
    assert_eq!(board.get_disk(1, 3), DiskColor::P2);
    assert_eq!(board.get_disk(0, 0), DiskColor::P1);
    assert_eq!(board.get_num_disks(), 3);
}

#[test]
fn empty_grid_becomes_the_empty_update() {
    let bytes = Board::default().to_game_update_binary(true, false);
    assert_eq!(bytes, vec![0u8; 14]);
}
