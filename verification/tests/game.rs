use connect_four::board_state::BoardState;
use connect_four::disks::{DiskColor, Disks, Error};
use connect_four::protocol::{ConnectionProtocol, GameUpdate};
use connect_four::second_player_extension::{
    AIPlayer, SecondPlayerExtension, SecondPlayerExtensionMode,
};
use connect_four::util::{
    GameScreen, GameUpdateMessage, InfoMessage, RequestMoveResult, SecondPlayerAIMode,
    SecondPlayerSurvivalAIMode,
};
use connect_four::disk_data::DiskData;

fn local_game(moves: &[u8]) -> BoardState {
    let mut state = BoardState::new();
    state.reset();
    for col in moves {
        assert_eq!(state.make_move_and_handoff_to_second_player(*col), Ok(None));
    }
    state
}

#[test]
fn new_state_is_an_empty_board_without_message() {
    let state = BoardState::new();
    assert_eq!(state.disks, Disks::default());
    assert!(state.can_move);
    assert_eq!(state.current_player, DiskColor::P1);
    assert_eq!(state.num_moves, 0);
    assert_eq!(state.game_history, [0u8; 42]);
    assert!(state.second_player_extension.is_none());
    assert_eq!(state.info_message, InfoMessage::NoMessage);
    assert_eq!(state.get_color_and_message_str(), ("utility-text-plain", ""));
}

#[test]
fn reset_starts_a_new_game() {
    let mut state = local_game(&[3, 3, 4]);
    state.init_ai(SecondPlayerAIMode::Random);
    state.reset();
    assert_eq!(state.disks, Disks::default());
    assert!(state.can_move);
    assert_eq!(state.current_player, DiskColor::P1);
    assert_eq!(state.num_moves, 0);
    assert_eq!(state.game_history, [0u8; 42]);
    assert!(state.second_player_extension.is_none());
    assert_eq!(state.info_message, InfoMessage::P1Turn);
}

#[test]
fn move_at_one_screen_hands_the_turn_over() {
    let mut state = local_game(&[]);
    assert_eq!(state.make_move(3), Ok(()));
    assert_eq!(state.disks.get_disk(0, 3), DiskColor::P1);
    assert_eq!(state.current_player, DiskColor::P2);
    assert_eq!(state.num_moves, 1);
    assert_eq!(state.game_history[0], 3);
    assert!(state.can_move);
    assert_eq!(state.info_message, InfoMessage::P2Turn);
    assert_eq!(state.get_color_and_message_str(), ("utility-text-p2", "Yellow's turn."));
    assert_eq!(state.make_move(3), Ok(()));
    assert_eq!(state.info_message, InfoMessage::P1Turn);
    assert_eq!(state.get_color_and_message_str(), ("utility-text-p1", "Red's turn."));
}

#[test]
fn move_into_a_full_column_fails_and_changes_nothing() {
    let mut state = local_game(&[2, 2, 2, 2, 2, 2]);
    assert_eq!(state.make_move(2), Err(Error::ColumnFull));
    assert_eq!(state.num_moves, 6);
    assert_eq!(state.current_player, DiskColor::P1);
    assert_eq!(state.make_move_and_handoff_to_second_player(2), Err(Error::ColumnFull));
    assert_eq!(state.num_moves, 6);
    assert!(!state.column_accepts_input(true, 2));
    assert!(state.column_accepts_input(true, 3));
    assert!(!state.column_accepts_input(false, 3));
}

#[test]
fn winning_move_ends_the_game() {
    let mut state = local_game(&[0, 0, 1, 1, 2, 2]);
    assert_eq!(state.make_move_and_handoff_to_second_player(3), Ok(None));
    assert!(!state.can_move);
    assert_eq!(state.info_message, InfoMessage::P1Win);
    assert_eq!(state.get_color_and_message_str(), ("utility-text-p1", "Red wins!"));
    assert!(!state.column_accepts_input(true, 4));
}

#[test]
fn win_of_the_second_player_is_told() {
    let state = local_game(&[6, 0, 6, 1, 5, 2, 5, 3]);
    assert!(!state.can_move);
    assert_eq!(state.info_message, InfoMessage::P2Win);
    assert_eq!(state.get_color_and_message_str(), ("utility-text-p2", "Yellow wins!"));
}

#[test]
fn full_board_is_a_draw() {
    let mut moves: Vec<u8> = Vec::new();
    for (first, second) in [(0u8, 2u8), (1, 3), (4, 6)] {
        moves.push(first);
        moves.extend([second; 6]);
        moves.extend([first; 5]);
    }
    moves.extend([5u8; 6]);
    let state = local_game(&moves);
    assert_eq!(state.num_moves, 42);
    assert!(!state.can_move);
    assert_eq!(state.info_message, InfoMessage::Draw);
    assert_eq!(state.get_color_and_message_str(), ("utility-text-plain", "Draw."));
}

#[test]
fn undo_takes_the_last_move_back() {
    let mut state = local_game(&[3, 4]);
    assert!(state.undo_possible());
    assert_eq!(state.undo_move_and_handoff_to_second_player(), None);
    assert_eq!(state.num_moves, 1);
    assert_eq!(state.disks.get_disk(0, 4), DiskColor::Empty);
    assert_eq!(state.disks.get_disk(0, 3), DiskColor::P1);
    assert_eq!(state.current_player, DiskColor::P2);
    assert_eq!(state.info_message, InfoMessage::P2Turn);
    assert!(state.can_move);
}

#[test]
fn undo_reopens_a_won_game() {
    let mut state = local_game(&[0, 0, 1, 1, 2, 2, 3]);
    assert!(!state.can_move);
    state.undo_move_and_handoff_to_second_player();
    assert!(state.can_move);
    assert_eq!(state.info_message, InfoMessage::P1Turn);
    assert_eq!(state.disks, local_game(&[0, 0, 1, 1, 2, 2]).disks);
}

#[test]
fn undo_at_the_start_does_nothing() {
    let mut state = local_game(&[]);
    assert!(state.undo_possible());
    assert_eq!(state.undo_move_and_handoff_to_second_player(), None);
    assert_eq!(state.num_moves, 0);
    assert_eq!(state.current_player, DiskColor::P1);
    assert_eq!(state.info_message, InfoMessage::P1Turn);
}

#[test]
fn random_player_answers_at_once() {
    let mut state = BoardState::new();
    state.init_ai(SecondPlayerAIMode::Random);
    assert!(state.second_player_extension.is_ai());
    assert_eq!(state.make_move_and_handoff_to_second_player(3), Ok(None));
    // the move of the player and the answer are both on the board
    assert_eq!(state.num_moves, 2);
    assert_eq!(state.disks.get_num_disks(), 2);
    assert!(state.can_move);
    assert_eq!(state.current_player, DiskColor::P1);
    assert_eq!(state.info_message, InfoMessage::P1Turn);
    assert_eq!(state.get_color_and_message_str(), ("utility-text-p1", "Your turn."));
}

#[test]
fn undo_against_the_computer_switches_its_colour() {
    let mut state = BoardState::new();
    state.init_ai(SecondPlayerAIMode::Random);
    state.make_move_and_handoff_to_second_player(3).unwrap();
    state.undo_move_and_handoff_to_second_player();
    assert_eq!(state.num_moves, 1);
    match state.get_second_player_mode() {
        SecondPlayerExtensionMode::AI { ai_color, .. } => assert_eq!(*ai_color, DiskColor::P1),
        _ => panic!("the second player is a computer"),
    }
    assert_eq!(state.current_player, DiskColor::P2);
    assert_eq!(state.get_color_and_message_str(), ("utility-text-p2", "Your turn."));
}

#[test]
fn brute_force_player_answers_later() {
    let mut state = BoardState::new();
    state.init_ai(SecondPlayerAIMode::BruteForce);
    assert_eq!(state.make_move_and_handoff_to_second_player(3), Ok(None));
    assert_eq!(state.num_moves, 1);
    assert!(!state.can_move);
    let answer = match &mut state.second_player_extension.mode {
        SecondPlayerExtensionMode::AI { ai: AIPlayer::BruteForce(ai), .. } => ai.process_next(),
        _ => panic!("the second player searches"),
    };
    let col = answer.unwrap();
    assert!(col < 7);
    state.update_state_from_second_player_message(GameUpdateMessage::SimpleMessage(col));
    assert_eq!(state.num_moves, 2);
    assert!(state.can_move);
    assert_eq!(state.disks.get_num_disks(), 2);
}

#[test]
fn survival_round_ends_with_a_harder_player_and_an_empty_board() {
    let mut state = BoardState::new();
    state.init_survival(SecondPlayerSurvivalAIMode::BruteForce);
    assert!(state.second_player_extension.is_survival_mode());
    assert_eq!(state.second_player_extension.get_survival_mode_difficulty(), Some(1));
    // the player wins in row 0 while the computer stacks column 6
    for (mine, answer) in [(0u8, 6u8), (1, 6), (2, 6)] {
        state.make_move_and_handoff_to_second_player(mine).unwrap();
        assert!(!state.can_move);
        match &mut state.second_player_extension.mode {
            SecondPlayerExtensionMode::SurvivalMode { ai, .. } => {
                assert!(ai.process_next().is_some());
            }
            _ => panic!("survival mode"),
        }
        state.update_state_from_second_player_message(GameUpdateMessage::SimpleMessage(answer));
        assert!(state.can_move);
    }
    assert_eq!(state.make_move_and_handoff_to_second_player(3), Ok(None));
    assert_eq!(state.disks, Disks::default());
    assert_eq!(state.num_moves, 0);
    assert_eq!(state.game_history, [0u8; 42]);
    assert!(state.can_move);
    match &mut state.second_player_extension.mode {
        SecondPlayerExtensionMode::SurvivalMode { ai, .. } => {
            assert_eq!(ai.process_next(), None);
        }
        _ => panic!("survival mode"),
    }
    assert_eq!(state.second_player_extension.get_survival_mode_difficulty(), Some(2));
}

#[test]
fn online_game_sends_the_board_and_waits() {
    let mut state = BoardState::new();
    state.init_online(true);
    assert_eq!(state.info_message, InfoMessage::Connecting);
    assert!(state.second_player_extension.is_online_player());
    assert!(state.second_player_extension.undo_enabled_for_online());
    state.update_state_from_second_player_message(GameUpdateMessage::SimpleMessage(
        ConnectionProtocol::IS_PLAYER_1,
    ));
    assert_eq!(state.info_message, InfoMessage::WaitingForOpponent);
    assert!(!state.can_move);
    state.update_state_from_second_player_message(GameUpdateMessage::SimpleMessage(
        ConnectionProtocol::SECOND_PLAYER_CONNECTED,
    ));
    assert!(state.can_move);
    assert_eq!(state.get_color_and_message_str(), ("utility-text-p1", "Your turn"));
    let outgoing = state.make_move_and_handoff_to_second_player(3).unwrap();
    let mut after = Disks::default();
    after.drop_disk(3).unwrap();
    assert_eq!(outgoing, Some(GameUpdateMessage::BoardState(after.to_game_update(false))));
    assert!(!state.can_move);
    assert_eq!(state.current_player, DiskColor::P1);
    assert_eq!(state.get_color_and_message_str(), ("utility-text-p2", "Opponent's turn."));
}

#[test]
fn failed_connection_is_told() {
    let mut state = BoardState::new();
    state.init_online(false);
    assert!(state.second_player_extension.is_none());
    assert_eq!(state.info_message, InfoMessage::ConnectionFailed);
    assert_eq!(state.get_color_and_message_str(), ("utility-text-plain", "Connection failed."));
}

#[test]
fn board_of_the_opponent_replaces_the_board() {
    let mut state = BoardState::new();
    state.init_online(true);
    state.update_state_from_second_player_message(GameUpdateMessage::SimpleMessage(
        ConnectionProtocol::IS_PLAYER_2,
    ));
    assert_eq!(state.current_player, DiskColor::P2);
    assert_eq!(state.info_message, InfoMessage::P1Turn);
    assert_eq!(state.get_color_and_message_str(), ("utility-text-p1", "Opponent's turn."));
    let mut board = Disks::default();
    board.drop_disk(3).unwrap();
    state.update_state_from_second_player_message(GameUpdateMessage::BoardState(
        board.to_game_update(false),
    ));
    assert_eq!(state.disks, board);
    assert!(state.can_move);
    assert_eq!(state.info_message, InfoMessage::P2Turn);
    let won = GameUpdate { game_won: true, ..board.to_game_update(true) };
    state.update_state_from_second_player_message(GameUpdateMessage::BoardState(won));
    // it would be the second player's turn: the first has won
    assert_eq!(state.info_message, InfoMessage::P1Win);
    assert_eq!(state.get_color_and_message_str(), ("utility-text-p1", "You lose."));
}

#[test]
fn spectator_is_told_whose_turn_it_is() {
    let mut state = BoardState::new();
    state.init_online(true);
    state.update_state_from_second_player_message(GameUpdateMessage::SimpleMessage(
        ConnectionProtocol::IS_SPECTATOR,
    ));
    assert_eq!(state.current_player, DiskColor::Empty);
    assert!(!state.can_move);
    assert_eq!(state.get_color_and_message_str(), ("utility-text-p1", "Red's turn."));
    state.update_state_from_second_player_message(GameUpdateMessage::SimpleMessage(
        ConnectionProtocol::CONNECTION_FAILURE,
    ));
    assert_eq!(state.info_message, InfoMessage::ConnectionFailed);
    state.update_state_from_second_player_message(GameUpdateMessage::SimpleMessage(99));
    assert_eq!(state.info_message, InfoMessage::ConnectionFailed);
}

#[test]
fn server_is_told_the_column_where_it_asks_for_columns() {
    let mut ext = SecondPlayerExtension::new();
    ext.mode = SecondPlayerExtensionMode::OnlinePlayer { send_update_as_col_num: true };
    assert!(!ext.undo_enabled_for_online());
    let board = Disks::default();
    assert_eq!(
        ext.request_move(4, &board, true),
        (RequestMoveResult::WillRerenderLater, Some(GameUpdateMessage::SimpleMessage(4)))
    );
    ext.mode = SecondPlayerExtensionMode::OnlinePlayer { send_update_as_col_num: false };
    assert_eq!(
        ext.request_move(ConnectionProtocol::UNDO, &board, true),
        (
            RequestMoveResult::WillRerenderLater,
            Some(GameUpdateMessage::UndoMove(board.to_game_update(false)))
        )
    );
    assert_eq!(
        SecondPlayerExtension::update_server(&board, false, false, 2),
        GameUpdateMessage::BoardState(board.to_game_update(true))
    );
}

#[test]
fn nobody_is_asked_at_one_screen_or_after_an_undo() {
    let board = Disks::default();
    let mut ext = SecondPlayerExtension::new();
    assert_eq!(ext.request_move(3, &board, true), (RequestMoveResult::NoRequestMade, None));
    ext.init_ai(SecondPlayerAIMode::Random);
    assert_eq!(
        ext.request_move(ConnectionProtocol::UNDO, &board, true),
        (RequestMoveResult::WillRerenderLater, None)
    );
    assert_eq!(ext.request_move(3, &board, false), (RequestMoveResult::WillRerenderLater, None));
    match ext.request_move(3, &board, true) {
        (RequestMoveResult::RerenderNow(col), None) => assert!(col < 7),
        _ => panic!("the random player answers at once"),
    }
    ext.remove_extension();
    assert!(ext.is_none());
}

#[test]
fn modes_of_one_kind_are_equal() {
    let online = SecondPlayerExtensionMode::OnlinePlayer { send_update_as_col_num: true };
    let other = SecondPlayerExtensionMode::OnlinePlayer { send_update_as_col_num: false };
    assert!(online.eq(&other));
    assert!(!online.eq(&SecondPlayerExtensionMode::Local));
    assert!(SecondPlayerExtensionMode::Local.eq(&SecondPlayerExtensionMode::Local));
}

#[test]
fn colour_of_the_computer_switches_only_from_the_colour_given() {
    let mut ext = SecondPlayerExtension::new();
    ext.init_survival(SecondPlayerSurvivalAIMode::BruteForce);
    ext.switch_ai_color_if_ai_or_survival(DiskColor::P1);
    assert!(matches!(ext.mode, SecondPlayerExtensionMode::SurvivalMode { ai_color: DiskColor::P2, .. }));
    ext.switch_ai_color_if_ai_or_survival(DiskColor::P2);
    assert!(matches!(ext.mode, SecondPlayerExtensionMode::SurvivalMode { ai_color: DiskColor::P1, .. }));
    ext.increment_survival_mode_difficulty();
    assert_eq!(ext.get_survival_mode_difficulty(), Some(1));
}

#[test]
fn undo_over_the_network_is_offered_after_the_own_move() {
    let mut state = BoardState::new();
    state.init_online(true);
    state.update_state_from_second_player_message(GameUpdateMessage::SimpleMessage(
        ConnectionProtocol::IS_PLAYER_1,
    ));
    state.update_state_from_second_player_message(GameUpdateMessage::SimpleMessage(
        ConnectionProtocol::SECOND_PLAYER_CONNECTED,
    ));
    assert!(!state.online_undo_available());
    state.make_move_and_handoff_to_second_player(3).unwrap();
    assert!(state.online_undo_available());
    let outgoing = state.undo_move_and_handoff_to_second_player();
    assert_eq!(outgoing, Some(GameUpdateMessage::UndoMove(Disks::default().to_game_update(false))));
    assert_eq!(state.num_moves, 0);
    assert!(state.can_move);
}

#[test]
fn disk_data_knows_its_ranges() {
    let corner = DiskData::new(0, 0, DiskColor::P1);
    assert_eq!((corner.left_range, corner.right_range, corner.up_range, corner.down_range), (0, 3, 0, 3));
    let middle = DiskData::new(3, 3, DiskColor::P2);
    assert_eq!((middle.left_range, middle.right_range, middle.up_range, middle.down_range), (3, 3, 3, 2));
    let edge = DiskData::new(5, 5, DiskColor::P1);
    assert_eq!((edge.left_range, edge.right_range, edge.up_range, edge.down_range), (3, 1, 3, 0));
    assert_eq!((edge.row, edge.col, edge.color), (5, 5, DiskColor::P1));
}

#[test]
fn failed_handoff_leaves_the_game_as_after_the_move() {
    let mut state = BoardState::new();
    state.init_online(true);
    state.update_state_from_second_player_message(GameUpdateMessage::SimpleMessage(
        ConnectionProtocol::IS_PLAYER_1,
    ));
    state.update_state_from_second_player_message(GameUpdateMessage::SimpleMessage(
        ConnectionProtocol::SECOND_PLAYER_CONNECTED,
    ));
    let could_move = state.can_move;
    assert!(state.make_move_and_handoff_to_second_player(3).unwrap().is_some());
    assert!(!state.can_move);
    state.handoff_failed(could_move);
    assert!(state.can_move);
    assert_eq!(state.num_moves, 1);
    state.handoff_failed(false);
    assert!(!state.can_move);
    // after a move that wins, no move can be made
    let mut won = local_game(&[0, 0, 1, 1, 2, 2, 3]);
    won.handoff_failed(true);
    assert!(!won.can_move);
}

#[test]
fn buttons_are_shown_by_screen_and_state() {
    assert!(!BoardState::in_game(GameScreen::Menu));
    assert!(BoardState::in_game(GameScreen::LocalMultiplayer));
    assert!(BoardState::in_game(GameScreen::VersusBot));
    assert!(BoardState::in_game(GameScreen::OnlineMultiplayer));
    let fresh = local_game(&[]);
    assert!(!fresh.undo_shown(GameScreen::LocalMultiplayer));
    let played = local_game(&[3]);
    assert!(played.undo_shown(GameScreen::LocalMultiplayer));
    assert!(played.undo_shown(GameScreen::VersusBot));
    assert!(!played.undo_shown(GameScreen::Menu));
    // at one screen there is no server to allow it
    assert!(!played.undo_shown(GameScreen::OnlineMultiplayer));
    let mut online = BoardState::new();
    online.init_online(true);
    online.update_state_from_second_player_message(GameUpdateMessage::SimpleMessage(
        ConnectionProtocol::IS_PLAYER_1,
    ));
    online.update_state_from_second_player_message(GameUpdateMessage::SimpleMessage(
        ConnectionProtocol::SECOND_PLAYER_CONNECTED,
    ));
    assert!(!online.undo_shown(GameScreen::OnlineMultiplayer));
    online.make_move_and_handoff_to_second_player(3).unwrap();
    assert!(online.undo_shown(GameScreen::OnlineMultiplayer));
}
