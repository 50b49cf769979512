//! The messages that a client and the lobby server exchange: single bytes
//! with a fixed meaning, and game updates of fourteen bytes.

use vstd::prelude::*;

verus! {

/// A game update as it travels between the client and the server.
#[derive(Debug, Clone, Copy, PartialEq, Eq, Structural)]
pub struct GameUpdate {
    pub position: u64,
    pub mask: u64,
    pub is_p1_turn: bool,
    pub game_won: bool,
}

/// The bytes and sizes that the client and the server agree on.
pub struct ConnectionProtocol;

/// The bit of the second word that says that it is not the first player's
/// turn.
pub const IS_NOT_P1_TURN: u64 = 0x2000;

/// The bit of the second word that says that the game is won.
pub const GAME_WON: u64 = 0x10_0000;

/// The bit of the second word that says that a move was taken back: bit 27,
/// which is bit 3 of the byte at index 10 of a message.
pub const UNDO_MOVE: u64 = 0x800_0000;

/// The word that the seven bytes of `bytes` from `start` on spell, lowest
/// byte first; only the first `n` of them are read.
pub open spec fn word_of_bytes(bytes: Seq<u8>, start: int, n: int) -> u64
    decreases n,
{
    if n <= 0 {
        0
    } else {
        word_of_bytes(bytes, start, n - 1) | ((bytes[start + n - 1] as u64) << ((8 * (n - 1)) as u64))
    }
}

/// Byte `i` of `word`, counted from the lowest.
pub open spec fn byte_of_word(word: u64, i: int) -> u8 {
    ((word >> ((8 * i) as u64)) & 0xff) as u8
}

/// The second word as it travels: the disks, and the turn and the win on
/// two bits that no disk uses.
pub open spec fn wire_mask(msg: GameUpdate) -> u64 {
    msg.mask | (if msg.is_p1_turn {
        0
    } else {
        IS_NOT_P1_TURN
    }) | (if msg.game_won {
        GAME_WON
    } else {
        0
    })
}

/// The fourteen bytes of a game update: the seven low bytes of the first
/// word, then those of the second word as it travels.
pub open spec fn encoded(msg: GameUpdate) -> Seq<u8> {
    Seq::new(
        14,
        |i: int|
            if i < 7 {
                byte_of_word(msg.position, i)
            } else {
                byte_of_word(wire_mask(msg), i - 7)
            },
    )
}

/// The game update that fourteen bytes spell.
pub open spec fn decoded(bytes: Seq<u8>) -> GameUpdate {
    let raw = word_of_bytes(bytes, 7, 7);
    GameUpdate {
        position: word_of_bytes(bytes, 0, 7),
        mask: raw & !IS_NOT_P1_TURN & !GAME_WON & !UNDO_MOVE,
        is_p1_turn: raw & IS_NOT_P1_TURN == 0,
        game_won: raw & GAME_WON != 0,
    }
}

/// A game update with the undo bit set in its second word.
pub open spec fn with_undo(msg: GameUpdate) -> GameUpdate {
    GameUpdate { mask: msg.mask | UNDO_MOVE, ..msg }
}

/// Facts about the flag bits and about a single byte of a word.
proof fn lemma_flags(mask: u64, raw: u64, byte: u8)
    by (bit_vector)
    ensures
        (mask | IS_NOT_P1_TURN) & IS_NOT_P1_TURN != 0,
        (mask | GAME_WON) & GAME_WON != 0,
        raw & 0xff <= 0xff,
        (raw >> 8) & 0xff <= 0xff,
        (raw >> 16) & 0xff <= 0xff,
        (raw >> 24) & 0xff <= 0xff,
        (raw >> 32) & 0xff <= 0xff,
        (raw >> 40) & 0xff <= 0xff,
        (raw >> 48) & 0xff <= 0xff,
        byte == ((raw >> 24) & 0xff) as u8 ==> (byte & 8 != 0) == (raw & UNDO_MOVE != 0),
{
}

/// The seven low bytes of a word spell its low 56 bits.
proof fn lemma_word_roundtrip(x: u64)
    by (bit_vector)
    ensures
        0u64 | ((((x >> 0) & 0xff) as u8) as u64) << 0 | ((((x >> 8) & 0xff) as u8) as u64) << 8 | ((((x
            >> 16) & 0xff) as u8) as u64) << 16 | ((((x >> 24) & 0xff) as u8) as u64) << 24 | ((((x
            >> 32) & 0xff) as u8) as u64) << 32 | ((((x >> 40) & 0xff) as u8) as u64) << 40 | ((((x
            >> 48) & 0xff) as u8) as u64) << 48 == x & 0x00ff_ffff_ffff_ffff,
{
}

/// The word that the bytes of a word spell is the word without its top
/// byte.
pub proof fn lemma_bytes_of_word(bytes: Seq<u8>, start: int, word: u64)
    requires
        0 <= start,
        start + 7 <= bytes.len(),
        forall|i: int| 0 <= i < 7 ==> bytes[start + i] == byte_of_word(word, i),
    ensures
        word_of_bytes(bytes, start, 7) == word & 0x00ff_ffff_ffff_ffff,
{
    reveal_with_fuel(word_of_bytes, 8);
    lemma_word_roundtrip(word);
    assert(bytes[start + 0] == byte_of_word(word, 0));
    assert(bytes[start + 1] == byte_of_word(word, 1));
    assert(bytes[start + 2] == byte_of_word(word, 2));
    assert(bytes[start + 3] == byte_of_word(word, 3));
    assert(bytes[start + 4] == byte_of_word(word, 4));
    assert(bytes[start + 5] == byte_of_word(word, 5));
    assert(bytes[start + 6] == byte_of_word(word, 6));
}

/// How the flags ride on a second word that leaves their bits free.
proof fn lemma_wire_mask(position: u64, mask: u64, turn: u64, won: u64, undo: u64)
    by (bit_vector)
    requires
        position <= 0x00ff_ffff_ffff_ffff,
        mask <= 0x00ff_ffff_ffff_ffff,
        mask & (IS_NOT_P1_TURN | GAME_WON | UNDO_MOVE) == 0,
        turn == 0 || turn == IS_NOT_P1_TURN,
        won == 0 || won == GAME_WON,
        undo == 0 || undo == UNDO_MOVE,
    ensures
        ((mask | undo | turn | won) & 0x00ff_ffff_ffff_ffff) & !IS_NOT_P1_TURN & !GAME_WON
            & !UNDO_MOVE == mask,
        (((mask | undo | turn | won) & 0x00ff_ffff_ffff_ffff) & IS_NOT_P1_TURN == 0) == (turn == 0),
        (((mask | undo | turn | won) & 0x00ff_ffff_ffff_ffff) & GAME_WON != 0) == (won != 0),
        (((((mask | undo | turn | won) >> 24) & 0xff) as u8) & 8 != 0) == (undo != 0),
        mask | 0 == mask,
        position & 0x00ff_ffff_ffff_ffff == position,
{
}

/// A game update whose words fit seven bytes, and whose second word leaves
/// the three flag bits free, comes back from its bytes as it was, with or
/// without the undo bit; the undo bit shows in the bytes exactly where it
/// was set.
pub proof fn lemma_decode_encode(msg: GameUpdate)
    requires
        msg.position <= 0x00ff_ffff_ffff_ffff,
        msg.mask <= 0x00ff_ffff_ffff_ffff,
        msg.mask & (IS_NOT_P1_TURN | GAME_WON | UNDO_MOVE) == 0,
    ensures
        decoded(encoded(msg)) == msg,
        decoded(encoded(with_undo(msg))) == msg,
        encoded(msg)[10] & 8 == 0,
        encoded(with_undo(msg))[10] & 8 != 0,
{
    let turn = if msg.is_p1_turn {
        0
    } else {
        IS_NOT_P1_TURN
    };
    let won = if msg.game_won {
        GAME_WON
    } else {
        0
    };
    lemma_wire_mask(msg.position, msg.mask, turn, won, 0);
    lemma_wire_mask(msg.position, msg.mask, turn, won, UNDO_MOVE);
    lemma_bytes_of_word(encoded(msg), 0, msg.position);
    lemma_bytes_of_word(encoded(msg), 7, wire_mask(msg));
    lemma_bytes_of_word(encoded(with_undo(msg)), 0, msg.position);
    lemma_bytes_of_word(encoded(with_undo(msg)), 7, wire_mask(with_undo(msg)));
}

impl ConnectionProtocol {
    pub const KILL_CONNECTION: u8 = 255;

    pub const CONNECTION_SUCCESS: u8 = 100;

    pub const CONNECTION_FAILURE: u8 = 101;

    pub const IS_PLAYER_1: u8 = 254;

    pub const IS_PLAYER_2: u8 = 253;

    pub const IS_SPECTATOR: u8 = 252;

    pub const SECOND_PLAYER_CONNECTED: u8 = 251;

    pub const COL_0: u8 = 0;

    pub const COL_1: u8 = 1;

    pub const COL_2: u8 = 2;

    pub const COL_3: u8 = 3;

    pub const COL_4: u8 = 4;

    pub const COL_5: u8 = 5;

    pub const COL_6: u8 = 6;

    pub const UNDO: u8 = 7;

    /// Number of bytes in a message that holds a game update.
    pub const MESSAGE_SIZE: usize = 14;

    /// Reads the word that seven bytes from `start` on spell.
    fn read_word(bytes: &Vec<u8>, start: usize) -> (word: u64)
        requires
            start + 7 <= bytes@.len(),
        ensures
            word == word_of_bytes(bytes@, start as int, 7),
    {
        let len: usize = bytes.len();
        let mut word: u64 = 0;
        let mut i: usize = 0;
        while i < 7
            invariant
                i <= 7,
                len == bytes@.len(),
                start + 7 <= len,
                word == word_of_bytes(bytes@, start as int, i as int),
            decreases 7 - i,
        {
            word |= (bytes[start + i] as u64) << ((i * 8) as u64);
            i += 1;
        }
        word
    }

    /// Turns the bytes of a message into a game update. Fails if there are
    /// not exactly `MESSAGE_SIZE` of them.
    pub fn decode_message(bytes: Vec<u8>) -> (res: Result<GameUpdate, ()>)
        ensures
            bytes@.len() != 14 ==> res is Err,
            bytes@.len() == 14 ==> res == Ok::<GameUpdate, ()>(decoded(bytes@)),
    {
        if bytes.len() != 14 {
            return Err(());
        }
        let position: u64 = Self::read_word(&bytes, 0);
        let mut mask: u64 = Self::read_word(&bytes, 7);
        let is_p1_turn: bool = mask & IS_NOT_P1_TURN == 0;
        if !is_p1_turn {
            mask &= !IS_NOT_P1_TURN;
        }
        let game_won: bool = mask & GAME_WON != 0;
        if game_won {
            mask &= !GAME_WON;
        }
        mask &= !UNDO_MOVE;
        proof {
            let raw = word_of_bytes(bytes@, 7, 7);
            assert(mask == raw & !IS_NOT_P1_TURN & !GAME_WON & !UNDO_MOVE && game_won == (raw
                & GAME_WON != 0)) by (bit_vector)
                requires
                    mask == (if (if raw & IS_NOT_P1_TURN == 0 {
                        raw
                    } else {
                        raw & !IS_NOT_P1_TURN
                    }) & GAME_WON != 0 {
                        (if raw & IS_NOT_P1_TURN == 0 {
                            raw
                        } else {
                            raw & !IS_NOT_P1_TURN
                        }) & !GAME_WON
                    } else {
                        (if raw & IS_NOT_P1_TURN == 0 {
                            raw
                        } else {
                            raw & !IS_NOT_P1_TURN
                        })
                    }) & !UNDO_MOVE,
                    game_won == ((if raw & IS_NOT_P1_TURN == 0 {
                        raw
                    } else {
                        raw & !IS_NOT_P1_TURN
                    }) & GAME_WON != 0),
            ;
        }
        Ok(GameUpdate { position, mask, is_p1_turn, game_won })
    }

    /// Appends the seven low bytes of `word`, lowest first.
    fn write_word(bytes: &mut Vec<u8>, word: u64)
        ensures
            final(bytes)@ == old(bytes)@ + Seq::new(7, |i: int| byte_of_word(word, i)),
    {
        let ghost before = bytes@;
        let mut i: usize = 0;
        while i < 7
            invariant
                i <= 7,
                bytes@ == before + Seq::new(i as nat, |j: int| byte_of_word(word, j)),
            decreases 7 - i,
        {
            proof {
                lemma_flags(0, word >> ((i * 8) as u64), 0);
            }
            bytes.push(((word >> ((i * 8) as u64)) & 0xff) as u8);
            assert(bytes@ =~= before + Seq::new((i + 1) as nat, |j: int| byte_of_word(word, j)));
            i += 1;
        }
    }

    /// Turns a game update into the bytes of a message: `MESSAGE_SIZE` of
    /// them.
    pub fn encode_message(msg: GameUpdate) -> (bytes: Vec<u8>)
        ensures
            bytes@ == encoded(msg),
    {
        let mut msg = msg;
        let ghost given = msg;
        let mut bytes: Vec<u8> = Vec::with_capacity(14);
        Self::write_word(&mut bytes, msg.position);
        if !msg.is_p1_turn {
            msg.mask |= IS_NOT_P1_TURN;
        }
        if msg.game_won {
            msg.mask |= GAME_WON;
        }
        assert(msg.mask == wire_mask(given)) by {
            let m = given.mask;
            assert(m | 0 == m && (m | 0) | 0 == m && (m | IS_NOT_P1_TURN) | 0 == m | IS_NOT_P1_TURN
                && (m | 0) | GAME_WON == m | GAME_WON) by (bit_vector);
        }
        Self::write_word(&mut bytes, msg.mask);
        assert(bytes@ =~= encoded(given));
        bytes
    }

    /// The bytes of a game update that tells of a move taken back.
    pub fn encode_undo_message(msg: GameUpdate) -> (bytes: Vec<u8>)
        ensures
            bytes@ == encoded(with_undo(msg)),
    {
        let mut msg = msg;
        msg.mask |= UNDO_MOVE;
        Self::encode_message(msg)
    }

    /// Whether the bytes of a game update tell of a move taken back.
    pub fn is_undo_move(bytes: &Vec<u8>) -> (undo: bool)
        requires
            bytes@.len() > 10,
        ensures
            undo == (bytes@[10] & 8 != 0),
    {
        bytes[10] & 0b1000u8 != 0
    }
}

} // verus!
