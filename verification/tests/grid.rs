use connect_four::disk_data::{BoardState, DiskData, GameRecord};
use connect_four::disks::DiskColor;

fn grid(cells: &[(usize, usize, DiskColor)]) -> BoardState {
    let mut state = BoardState::default();
    for (row, col, color) in cells {
        state.board_state[*row][*col] = *color;
    }
    state
}

#[test]
fn grid_starts_empty() {
    let state = BoardState::default();
    assert_eq!(state.board_state, [[DiskColor::Empty; 7]; 6]);
    assert!(state.current_player == DiskColor::P1);
    assert!(!state.game_won);
    assert!(!state.check_winner(DiskData::new(5, 3, DiskColor::P1)));
}

#[test]
fn placed_disk_wins_on_top_of_three() {
    let state = grid(&[(3, 2, DiskColor::P1), (4, 2, DiskColor::P1), (5, 2, DiskColor::P1)]);
    assert!(state.check_winner(DiskData::new(2, 2, DiskColor::P1)));
    assert!(!state.check_winner(DiskData::new(2, 2, DiskColor::P2)));
    assert!(!state.check_winner(DiskData::new(2, 3, DiskColor::P1)));
    // three above the disk do not count
    let hanging = grid(&[(0, 2, DiskColor::P1), (1, 2, DiskColor::P1), (2, 2, DiskColor::P1)]);
    assert!(!hanging.check_winner(DiskData::new(3, 2, DiskColor::P1)));
}

#[test]
fn placed_disk_wins_between_disks_of_its_row() {
    let state = grid(&[(5, 0, DiskColor::P2), (5, 1, DiskColor::P2), (5, 3, DiskColor::P2)]);
    assert!(state.check_winner(DiskData::new(5, 2, DiskColor::P2)));
    assert!(!state.check_winner(DiskData::new(5, 4, DiskColor::P2)));
    let right = grid(&[(5, 4, DiskColor::P1), (5, 5, DiskColor::P1), (5, 6, DiskColor::P1)]);
    assert!(right.check_winner(DiskData::new(5, 3, DiskColor::P1)));
    let left = grid(&[(5, 0, DiskColor::P1), (5, 1, DiskColor::P1), (5, 2, DiskColor::P1)]);
    assert!(left.check_winner(DiskData::new(5, 3, DiskColor::P1)));
    assert!(!left.check_winner(DiskData::new(4, 3, DiskColor::P1)));
}

#[test]
fn gap_in_the_row_is_no_win() {
    let state = grid(&[(5, 0, DiskColor::P1), (5, 1, DiskColor::P1), (5, 4, DiskColor::P1)]);
    assert!(!state.check_winner(DiskData::new(5, 2, DiskColor::P1)));
    let other = grid(&[(5, 1, DiskColor::P1), (5, 2, DiskColor::P2), (5, 4, DiskColor::P1), (5, 5, DiskColor::P1)]);
    assert!(!other.check_winner(DiskData::new(5, 3, DiskColor::P1)));
}

#[test]
fn placed_disk_wins_on_the_diagonal_that_falls_to_the_right() {
    let state = grid(&[(2, 1, DiskColor::P1), (3, 2, DiskColor::P1), (5, 4, DiskColor::P1)]);
    assert!(state.check_winner(DiskData::new(4, 3, DiskColor::P1)));
    assert!(!state.check_winner(DiskData::new(4, 3, DiskColor::P2)));
    assert!(!state.check_winner(DiskData::new(4, 4, DiskColor::P1)));
}

#[test]
fn placed_disk_wins_on_the_diagonal_that_rises_to_the_right() {
    let state = grid(&[(5, 0, DiskColor::P2), (4, 1, DiskColor::P2), (3, 2, DiskColor::P2)]);
    assert!(state.check_winner(DiskData::new(2, 3, DiskColor::P2)));
    let middle = grid(&[(5, 0, DiskColor::P2), (3, 2, DiskColor::P2), (2, 3, DiskColor::P2)]);
    assert!(middle.check_winner(DiskData::new(4, 1, DiskColor::P2)));
    assert!(!middle.check_winner(DiskData::new(4, 2, DiskColor::P2)));
}

#[test]
fn undo_on_the_grid_takes_the_top_disk() {
    let mut state = grid(&[(5, 2, DiskColor::P1), (4, 2, DiskColor::P2), (5, 3, DiskColor::P1)]);
    state.game_won = true;
    state.current_player = DiskColor::P2;
    state.undo_move(2);
    assert_eq!(state.board_state[4][2], DiskColor::Empty);
    assert_eq!(state.board_state[5][2], DiskColor::P1);
    assert_eq!(state.board_state[5][3], DiskColor::P1);
    assert!(!state.game_won);
    assert!(state.current_player == DiskColor::P1);
    state.undo_move(6);
    assert_eq!(state.board_state, grid(&[(5, 2, DiskColor::P1), (5, 3, DiskColor::P1)]).board_state);
    assert!(state.current_player == DiskColor::P2);
}

#[test]
fn record_takes_the_last_move_of_the_history_back() {
    let mut record = GameRecord::new();
    assert!(!record.undo_last_move());
    assert_eq!(record.num_moves, 0);
    record.state.board_state[5][3] = DiskColor::P1;
    record.state.board_state[4][3] = DiskColor::P2;
    record.state.board_state[5][0] = DiskColor::P1;
    record.game_history[0] = 3;
    record.game_history[1] = 3;
    record.game_history[2] = 0;
    record.num_moves = 3;
    record.state.current_player = DiskColor::P2;
    record.state.game_won = true;
    assert!(record.undo_last_move());
    assert_eq!(record.num_moves, 2);
    assert_eq!(record.state.board_state[5][0], DiskColor::Empty);
    assert_eq!(record.state.board_state[4][3], DiskColor::P2);
    assert!(record.state.current_player == DiskColor::P1);
    assert!(!record.state.game_won);
    assert!(record.undo_last_move());
    assert_eq!(record.state.board_state[4][3], DiskColor::Empty);
    assert_eq!(record.state.board_state[5][3], DiskColor::P1);
    assert!(record.undo_last_move());
    assert_eq!(record.state.board_state, [[DiskColor::Empty; 7]; 6]);
    assert!(!record.undo_last_move());
}
