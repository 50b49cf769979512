use connect_four::ai::brute_force::{BruteForceAI, SearchState};
use connect_four::ai::random::RandomAI;
use connect_four::ai::util::{AI_INCREMENT_MESSAGE, BRUTE_FORCE_SURVIVAL_DIFFICULTY_INCREMENT};
use connect_four::ai::{SurvivalAI, AI};
use connect_four::constants::{BOARD_HEIGHT, BOARD_WIDTH, LOOKUP_TABLE_SIZE};
use connect_four::disks::{Disks, Error};
use connect_four::util::GameUpdateMessage;

fn position(moves: &[u8]) -> Disks {
    let mut board = Disks::default();
    for col in moves {
        board.drop_disk(*col).unwrap();
    }
    board
}

#[test]
fn constants_have_their_values() {
    assert_eq!(BOARD_HEIGHT, 6);
    assert_eq!(BOARD_WIDTH, 7);
    assert_eq!(LOOKUP_TABLE_SIZE, 1000);
    assert_eq!(AI_INCREMENT_MESSAGE, 8);
    assert_eq!(BRUTE_FORCE_SURVIVAL_DIFFICULTY_INCREMENT, 4);
}

#[test]
fn random_player_lists_the_open_columns() {
    let board = position(&[1, 1, 1, 1, 1, 1, 4, 4, 4, 4, 4, 4]);
    assert_eq!(RandomAI::open_columns(&board), vec![0, 2, 3, 5, 6]);
    assert_eq!(RandomAI::open_columns(&Disks::default()), vec![0, 1, 2, 3, 4, 5, 6]);
}

#[test]
fn random_player_moves_into_an_open_column() {
    let board = position(&[1, 1, 1, 1, 1, 1, 4, 4, 4, 4, 4, 4]);
    let mut player = RandomAI;
    let mut seen = [false; 7];
    for _ in 0..300 {
        let col = player.request_move(&board);
        assert!(col < 7);
        assert!(!board.is_col_full(col));
        seen[col as usize] = true;
    }
    assert_eq!(seen, [true, false, true, true, false, true, true]);
}

#[test]
fn random_player_takes_the_only_open_column() {
    let mut board = Disks::default();
    for col in [0u8, 1, 2, 4, 5, 6] {
        for _ in 0..6 {
            board.drop_disk(col).unwrap();
        }
    }
    let mut player = RandomAI;
    assert_eq!(player.request_move(&board), 3);
}

#[test]
fn brute_force_player_starts_idle_in_round_one() {
    let player = BruteForceAI::new(20);
    assert_eq!(player.state(), SearchState::Idle);
    assert_eq!(player.get_difficulty_level(), 1);
    assert!(player.has_room_to_increment());
}

#[test]
fn request_queues_and_answers_later() {
    let mut player = BruteForceAI::new(2);
    let board = position(&[0, 0, 1, 1, 2, 2]);
    assert_eq!(player.request_move(&board), BOARD_WIDTH);
    assert_eq!(player.state(), SearchState::Searching);
    assert_eq!(player.process_next(), Some(3));
    assert_eq!(player.state(), SearchState::Idle);
}

#[test]
fn requests_are_answered_in_the_order_they_came() {
    let mut player = BruteForceAI::new(2);
    assert_eq!(player.request_move(&position(&[0, 0, 1, 1, 2, 2])), BOARD_WIDTH);
    assert_eq!(player.request_move(&position(&[1, 2, 1, 2, 1, 2])), BOARD_WIDTH);
    assert_eq!(player.request_move(&position(&[5, 0, 5, 0, 5, 0])), BOARD_WIDTH);
    assert_eq!(player.process_next(), Some(3));
    assert_eq!(player.state(), SearchState::Searching);
    assert_eq!(player.process_next(), Some(1));
    assert_eq!(player.process_next(), Some(5));
    assert_eq!(player.state(), SearchState::Idle);
}

#[test]
fn increment_waits_behind_the_requests_and_then_opens_the_next_round() {
    let mut player = BruteForceAI::new(1);
    let board = position(&[3, 3, 5]);
    assert_eq!(player.request_move(&board), BOARD_WIDTH);
    player.increment_difficulty();
    // the round counts only once the search has come to the increment
    assert_eq!(player.get_difficulty_level(), 1);
    assert!(player.process_next().is_some());
    assert_eq!(player.get_difficulty_level(), 1);
    assert_eq!(player.process_next(), None);
    assert_eq!(player.get_difficulty_level(), 2);
    assert_eq!(player.state(), SearchState::Idle);
}

#[test]
fn deeper_search_after_the_increment_sees_what_the_shallow_one_missed() {
    // at depth 1 all columns tie after 3, 3, 5; at depth 5 only 2, 4 and 6 hold
    let board = position(&[3, 3, 5]);
    let mut player = BruteForceAI::new(1);
    player.increment_difficulty();
    assert_eq!(player.process_next(), None);
    for _ in 0..20 {
        let col = player.handle_message(GameUpdateMessage::Disks(board)).unwrap();
        assert!(col == 2 || col == 4 || col == 6);
    }
}

#[test]
fn other_bytes_change_nothing() {
    let mut player = BruteForceAI::new(3);
    assert_eq!(player.handle_message(GameUpdateMessage::SimpleMessage(0)), None);
    assert_eq!(player.handle_message(GameUpdateMessage::SimpleMessage(255)), None);
    assert_eq!(player.get_difficulty_level(), 1);
}

#[test]
fn room_to_increment_runs_out() {
    let mut player = BruteForceAI::new(250);
    assert!(player.has_room_to_increment());
    assert_eq!(player.handle_message(GameUpdateMessage::SimpleMessage(AI_INCREMENT_MESSAGE)), None);
    assert_eq!(player.get_difficulty_level(), 2);
    assert!(!player.has_room_to_increment());
}

#[test]
fn random_player_has_no_move_on_a_full_board() {
    let mut board = Disks::default();
    for col in 0..7u8 {
        for _ in 0..6 {
            board.drop_disk(col).unwrap();
        }
    }
    assert_eq!(RandomAI::choose_column(&board), Err(Error::NoLegalMove));
    assert_eq!(Error::NoLegalMove.message(), "No column has an open slot");
    assert_eq!(Error::ColumnFull.message(), "Cannot drop disk in full column");
    for _ in 0..50 {
        let col = RandomAI::choose_column(&Disks::default()).unwrap();
        assert!(col < 7);
    }
}

#[test]
fn queue_answers_with_open_columns_late_in_the_game() {
    let mut moves: Vec<u8> = Vec::new();
    for (first, second) in [(0u8, 2u8), (1, 3), (4, 6)] {
        moves.push(first);
        moves.extend([second; 6]);
        moves.extend([first; 5]);
    }
    moves.extend([5u8; 6]);
    let mut player = BruteForceAI::new(3);
    assert_eq!(player.request_move(&position(&moves[..41])), BOARD_WIDTH);
    assert_eq!(player.request_move(&position(&moves[..40])), BOARD_WIDTH);
    assert_eq!(player.process_next(), Some(5));
    assert_eq!(player.process_next(), Some(5));
    assert_eq!(player.state(), SearchState::Idle);
}
