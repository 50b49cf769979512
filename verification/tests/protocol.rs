use connect_four::protocol::{ConnectionProtocol, GameUpdate};

#[test]
fn protocol_bytes_have_their_values() {
    assert_eq!(ConnectionProtocol::KILL_CONNECTION, 255);
    assert_eq!(ConnectionProtocol::CONNECTION_SUCCESS, 100);
    assert_eq!(ConnectionProtocol::CONNECTION_FAILURE, 101);
    assert_eq!(ConnectionProtocol::IS_PLAYER_1, 254);
    assert_eq!(ConnectionProtocol::IS_PLAYER_2, 253);
    assert_eq!(ConnectionProtocol::IS_SPECTATOR, 252);
    assert_eq!(ConnectionProtocol::SECOND_PLAYER_CONNECTED, 251);
    assert_eq!(ConnectionProtocol::COL_0, 0);
    assert_eq!(ConnectionProtocol::COL_6, 6);
    assert_eq!(ConnectionProtocol::UNDO, 7);
    assert_eq!(ConnectionProtocol::MESSAGE_SIZE, 14);
}

#[test]
fn encode_writes_both_words_lowest_byte_first() {
    let update = GameUpdate {
        position: 0x0001_0203_0405_0607,
        mask: 0x0000_0000_0000_0183,
        is_p1_turn: true,
        game_won: false,
    };
    let bytes = ConnectionProtocol::encode_message(update);
    assert_eq!(bytes, vec![7, 6, 5, 4, 3, 2, 1, 0x83, 0x01, 0, 0, 0, 0, 0]);
}

#[test]
fn encode_sets_the_turn_and_win_bits() {
    let update = GameUpdate { position: 0, mask: 0, is_p1_turn: false, game_won: true };
    let bytes = ConnectionProtocol::encode_message(update);
    // bit 13 is bit 5 of byte 1, bit 20 is bit 4 of byte 2 of the second word
    assert_eq!(bytes, vec![0, 0, 0, 0, 0, 0, 0, 0, 0x20, 0x10, 0, 0, 0, 0]);
    assert!(!ConnectionProtocol::is_undo_move(&bytes));
}

#[test]
fn encode_undo_sets_the_undo_bit() {
    let update = GameUpdate { position: 1, mask: 3, is_p1_turn: true, game_won: false };
    let bytes = ConnectionProtocol::encode_undo_message(update);
    assert_eq!(bytes, vec![1, 0, 0, 0, 0, 0, 0, 3, 0, 0, 0x08, 0, 0, 0]);
    assert!(ConnectionProtocol::is_undo_move(&bytes));
}

#[test]
fn decode_rejects_other_lengths() {
    assert_eq!(ConnectionProtocol::decode_message(vec![]), Err(()));
    assert_eq!(ConnectionProtocol::decode_message(vec![0; 13]), Err(()));
    assert_eq!(ConnectionProtocol::decode_message(vec![0; 15]), Err(()));
    assert!(ConnectionProtocol::decode_message(vec![0; 14]).is_ok());
}

#[test]
fn decode_reads_the_words_and_strips_the_flags() {
    let bytes = vec![7, 6, 5, 4, 3, 2, 1, 0x83, 0x21, 0x10, 0x08, 0, 0, 0];
    let update = ConnectionProtocol::decode_message(bytes).unwrap();
    assert_eq!(update.position, 0x0001_0203_0405_0607);
    assert_eq!(update.mask, 0x0183);
    assert!(!update.is_p1_turn);
    assert!(update.game_won);
}

#[test]
fn decode_of_encode_gives_the_update_back() {
    let masks: [u64; 4] = [0, 0x0000_fdfb_f7ef_dfbf, 0b111 | (1 << 7) | (0b11 << 42), 1 << 21];
    for mask in masks {
        for is_p1_turn in [true, false] {
            for game_won in [true, false] {
                let update = GameUpdate { position: mask & 0x5555_5555_5555, mask, is_p1_turn, game_won };
                let bytes = ConnectionProtocol::encode_message(update);
                assert_eq!(bytes.len(), 14);
                assert_eq!(ConnectionProtocol::decode_message(bytes), Ok(update));
                let undo = ConnectionProtocol::encode_undo_message(update);
                assert!(ConnectionProtocol::is_undo_move(&undo));
                assert_eq!(ConnectionProtocol::decode_message(undo), Ok(update));
            }
        }
    }
}
