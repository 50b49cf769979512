use connect_four::disks::{DiskColor, Disks, Error};
use connect_four::protocol::GameUpdate;
use std::collections::HashMap;

fn play(moves: &[u8]) -> Disks {
    let mut board = Disks::default();
    for col in moves {
        assert_eq!(board.drop_disk(*col), Ok(()));
    }
    board
}

fn words(board: &Disks) -> (u64, u64, bool) {
    let update = board.to_game_update(false);
    (update.mask, update.position, update.is_p1_turn)
}

#[test]
fn empty_board_has_no_disks() {
    let board = Disks::default();
    assert_eq!(board.get_num_disks(), 0);
    assert_eq!(board.num_open_cols(), 7);
    assert!(!board.is_full());
    assert!(board.get_is_p1_turn());
    assert!(board.is_valid());
    assert_eq!(board.get_key(), 0);
    assert!(!board.check_last_drop_won());
    for col in 0..7u8 {
        assert_eq!(board.first_opening_in_col(col), 0);
        assert!(!board.is_col_full(col));
        for row in 0..6u8 {
            assert_eq!(board.get_disk(row, col), DiskColor::Empty);
        }
    }
}

#[test]
fn drop_fills_column_from_the_bottom() {
    let mut board = Disks::default();
    for row in 0..6u8 {
        assert_eq!(board.first_opening_in_col(3), row);
        assert_eq!(board.drop_disk(3), Ok(()));
        let expected = if row % 2 == 0 { DiskColor::P1 } else { DiskColor::P2 };
        assert_eq!(board.get_disk(row, 3), expected);
        assert_eq!(board.get_num_disks(), row + 1);
    }
    assert!(board.is_col_full(3));
    assert_eq!(board.num_open_cols(), 6);
    assert_eq!(board.first_opening_in_col(3), 6);
}

#[test]
fn drop_into_full_column_fails_and_changes_nothing() {
    let mut board = play(&[3, 3, 3, 3, 3, 3]);
    let before = board;
    assert_eq!(board.drop_disk(3), Err(Error::ColumnFull));
    assert_eq!(board, before);
}

#[test]
fn drop_sets_the_words_as_described() {
    let mut board = Disks::default();
    assert_eq!(board.drop_disk(0), Ok(()));
    // the first player's disk is on the board, and it is the second player's turn
    assert_eq!(words(&board), (1, 0, false));
    assert_eq!(board.drop_disk(0), Ok(()));
    assert_eq!(words(&board), (3, 1, true));
    assert_eq!(board.drop_disk(1), Ok(()));
    assert_eq!(words(&board), (3 | (1 << 7), 2, false));
    assert_eq!(board.get_key(), 3 + (1 << 7) + 2);
}

#[test]
fn turn_flips_with_every_drop_and_undo() {
    let mut board = Disks::default();
    assert!(board.get_is_p1_turn());
    board.drop_disk(2).unwrap();
    assert!(!board.get_is_p1_turn());
    board.drop_disk(2).unwrap();
    assert!(board.get_is_p1_turn());
    board.rm_disk_from_col(2);
    assert!(!board.get_is_p1_turn());
}

#[test]
fn undo_restores_the_board_after_every_drop() {
    let moves: [u8; 12] = [3, 3, 4, 2, 4, 4, 0, 6, 6, 1, 5, 3];
    let mut board = Disks::default();
    for col in moves {
        let before = board;
        assert_eq!(board.drop_disk(col), Ok(()));
        let mut undone = board;
        undone.rm_disk_from_col(col);
        assert_eq!(undone, before);
        assert_eq!(words(&undone), words(&before));
    }
}

#[test]
fn undo_of_an_empty_column_does_nothing() {
    let mut board = play(&[1, 2]);
    let before = board;
    board.rm_disk_from_col(5);
    assert_eq!(board, before);
}

#[test]
fn undo_keeps_the_colours_of_the_other_disks() {
    let mut board = play(&[0, 1, 0]);
    board.rm_disk_from_col(0);
    assert_eq!(board.get_disk(0, 0), DiskColor::P1);
    assert_eq!(board.get_disk(0, 1), DiskColor::P2);
    assert_eq!(board.get_disk(1, 0), DiskColor::Empty);
    assert_eq!(board.get_num_disks(), 2);
}

#[test]
fn vertical_win_is_seen_on_the_winning_drop_only() {
    let mut board = Disks::default();
    for col in [0u8, 1, 0, 1, 0, 1] {
        board.drop_disk(col).unwrap();
        assert!(!board.check_last_drop_won());
    }
    board.drop_disk(0).unwrap();
    assert!(board.check_last_drop_won());
}

#[test]
fn horizontal_win_is_seen_on_the_winning_drop_only() {
    let mut board = Disks::default();
    for col in [0u8, 0, 1, 1, 2, 2] {
        board.drop_disk(col).unwrap();
        assert!(!board.check_last_drop_won());
    }
    board.drop_disk(3).unwrap();
    assert!(board.check_last_drop_won());
}

#[test]
fn rising_diagonal_win_is_seen() {
    // the first player climbs from (0, 0) to (3, 3)
    let mut board = Disks::default();
    for col in [0u8, 1, 1, 2, 2, 3, 2, 3, 3, 5] {
        board.drop_disk(col).unwrap();
        assert!(!board.check_last_drop_won());
    }
    board.drop_disk(3).unwrap();
    assert!(board.check_last_drop_won());
    assert_eq!(board.get_disk(3, 3), DiskColor::P1);
}

#[test]
fn falling_diagonal_win_is_seen() {
    // the first player descends from (3, 3) to (0, 6)
    let mut board = Disks::default();
    for col in [6u8, 5, 5, 4, 4, 3, 4, 3, 3, 1] {
        board.drop_disk(col).unwrap();
        assert!(!board.check_last_drop_won());
    }
    board.drop_disk(3).unwrap();
    assert!(board.check_last_drop_won());
}

#[test]
fn win_of_the_second_player_is_seen() {
    let mut board = Disks::default();
    for col in [6u8, 0, 6, 1, 5, 2, 5] {
        board.drop_disk(col).unwrap();
        assert!(!board.check_last_drop_won());
    }
    board.drop_disk(3).unwrap();
    assert!(board.check_last_drop_won());
    assert_eq!(board.get_disk(0, 3), DiskColor::P2);
}

#[test]
fn three_at_the_top_of_a_column_and_one_at_the_foot_of_the_next_is_no_win() {
    // rows 3, 4, 5 of column 0 and row 0 of column 1 belong to the first
    // player: the guard bit keeps them apart
    let mask: u64 = 0b111111 | (1 << 7);
    let second_player: u64 = 0b000111;
    let board = Disks::from(GameUpdate {
        position: second_player,
        mask,
        is_p1_turn: false,
        game_won: false,
    });
    assert!(board.is_valid());
    assert_eq!(board.get_disk(5, 0), DiskColor::P1);
    assert_eq!(board.get_disk(0, 1), DiskColor::P1);
    assert!(!board.check_last_drop_won());
}

#[test]
fn three_at_the_edge_of_the_board_and_one_in_the_first_column_is_no_win() {
    // row 0 of columns 4, 5, 6 and row 1 of column 0: the row does not go on
    let mut board = Disks::default();
    for col in [4u8, 4, 5, 5, 6, 0] {
        board.drop_disk(col).unwrap();
    }
    board.drop_disk(0).unwrap();
    assert!(!board.check_last_drop_won());
}

#[test]
fn board_from_update_is_checked() {
    let floating = Disks::from(GameUpdate { position: 0, mask: 0b10, is_p1_turn: true, game_won: false });
    assert!(!floating.is_valid());
    let guard = Disks::from(GameUpdate { position: 0, mask: 1 << 6, is_p1_turn: true, game_won: false });
    assert!(!guard.is_valid());
    let stray = Disks::from(GameUpdate { position: 0b10, mask: 0b01, is_p1_turn: true, game_won: false });
    assert!(!stray.is_valid());
    let fine = Disks::from(GameUpdate { position: 0b10, mask: 0b11, is_p1_turn: true, game_won: false });
    assert!(fine.is_valid());
    assert_eq!(fine.get_disk(0, 0), DiskColor::P2);
    assert_eq!(fine.get_disk(1, 0), DiskColor::P1);
}

#[test]
fn game_update_carries_the_board() {
    let board = play(&[3, 4]);
    let update = board.to_game_update(true);
    assert_eq!(update.mask, (1 << 21) | (1 << 28));
    assert_eq!(update.position, 1 << 21);
    assert!(update.is_p1_turn);
    assert!(update.game_won);
    assert_eq!(Disks::from(update), board);
}

#[test]
fn board_from_cells_reads_as_the_cells() {
    let mut cells = [[DiskColor::Empty; 7]; 6];
    cells[0][3] = DiskColor::P1;
    cells[1][3] = DiskColor::P2;
    cells[0][4] = DiskColor::P1;
    let board = Disks::from_cells(&cells, false);
    assert!(board.is_valid());
    for row in 0..6u8 {
        for col in 0..7u8 {
            assert_eq!(board.get_disk(row, col), cells[row as usize][col as usize]);
        }
    }
    assert_eq!(board, play(&[3, 3, 4]));
}

#[test]
fn full_board_is_full() {
    let mut board = Disks::default();
    for col in 0..7u8 {
        for _ in 0..6 {
            board.drop_disk(col).unwrap();
        }
    }
    assert!(board.is_full());
    assert_eq!(board.num_open_cols(), 0);
    assert_eq!(board.get_num_disks(), 42);
    assert!(board.is_valid());
}

#[test]
fn colours_have_opposites_and_names() {
    assert_eq!(DiskColor::P1.opposite(), DiskColor::P2);
    assert_eq!(DiskColor::P2.opposite(), DiskColor::P1);
    assert_eq!(DiskColor::Empty.opposite(), DiskColor::Empty);
    assert_eq!(DiskColor::Empty.to_str(), "empty");
    assert_eq!(DiskColor::P1.to_str(), "p1");
    assert_eq!(DiskColor::P2.to_str(), "p2");
    assert_eq!(DiskColor::Empty.style_of_disk(), "disk-empty");
    assert_eq!(DiskColor::P1.style_of_disk(), "disk-p1");
    assert_eq!(DiskColor::P2.style_of_disk(), "disk-p2");
}

#[test]
fn keys_of_distinct_positions_differ_over_random_games() {
    let mut seen: HashMap<u64, (u64, u64, bool)> = HashMap::new();
    let mut state: u64 = 0x2545_f491_4f6c_dd1d;
    for _ in 0..3000 {
        let mut board = Disks::default();
        loop {
            let key = board.get_key();
            let here = words(&board);
            if let Some(other) = seen.get(&key) {
                assert_eq!(*other, here);
            } else {
                seen.insert(key, here);
            }
            if board.is_full() || board.check_last_drop_won() {
                break;
            }
            state ^= state << 13;
            state ^= state >> 7;
            state ^= state << 17;
            let mut col = (state % 7) as u8;
            while board.is_col_full(col) {
                col = (col + 1) % 7;
            }
            board.drop_disk(col).unwrap();
            assert!(board.is_valid());
        }
    }
    assert!(seen.len() > 3000);
}
