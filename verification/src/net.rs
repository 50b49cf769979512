//! What a client makes of the bytes of the server, and the bytes that it
//! sends.

use vstd::prelude::*;
use crate::protocol::{decoded, encoded, with_undo, ConnectionProtocol};
use crate::util::GameUpdateMessage;

verus! {

/// Whether the first message of the server confirms the connection, and if
/// so whether the server wants to be told the column of a move (a message
/// of one byte) rather than the whole board.
pub fn connection_established(bytes: &Vec<u8>) -> (columns: Option<bool>)
    ensures
        columns == if bytes@.len() != 0 && bytes@[0] == ConnectionProtocol::CONNECTION_SUCCESS {
            Some(bytes@.len() == 1)
        } else {
            None
        },
{
    if bytes.len() != 0 && bytes[0] == ConnectionProtocol::CONNECTION_SUCCESS {
        Some(bytes.len() == 1)
    } else {
        None
    }
}

/// The message that the bytes of the server stand for: a single byte as it
/// is, fourteen bytes as the board that they spell, and nothing else.
pub fn message_from_server(bytes: Vec<u8>) -> (msg: Option<GameUpdateMessage>)
    ensures
        msg == if bytes@.len() == 1 {
            Some(GameUpdateMessage::SimpleMessage(bytes@[0]))
        } else if bytes@.len() == 14 {
            Some(GameUpdateMessage::BoardState(decoded(bytes@)))
        } else {
            None
        },
{
    if bytes.len() == 1 {
        Some(GameUpdateMessage::SimpleMessage(bytes[0]))
    } else {
        match ConnectionProtocol::decode_message(bytes) {
            Ok(update) => Some(GameUpdateMessage::BoardState(update)),
            Err(_) => None,
        }
    }
}

/// The bytes that tell the server of the message: a single byte as it is,
/// a board as its fourteen bytes, with the undo bit for a move taken back.
pub fn message_to_server(msg: GameUpdateMessage) -> (bytes: Vec<u8>)
    requires
        !(msg is Disks),
    ensures
        bytes@ == match msg {
            GameUpdateMessage::BoardState(update) => encoded(update),
            GameUpdateMessage::SimpleMessage(byte) => seq![byte],
            GameUpdateMessage::UndoMove(update) => encoded(with_undo(update)),
            GameUpdateMessage::Disks(_) => Seq::<u8>::empty(),
        },
{
    match msg {
        GameUpdateMessage::BoardState(update) => ConnectionProtocol::encode_message(update),
        GameUpdateMessage::SimpleMessage(byte) => {
            let mut bytes: Vec<u8> = Vec::with_capacity(1);
            bytes.push(byte);
            assert(bytes@ =~= seq![byte]);
            bytes
        },
        GameUpdateMessage::UndoMove(update) => ConnectionProtocol::encode_undo_message(update),
        GameUpdateMessage::Disks(_) => Vec::new(),
    }
}

/// The first index from `start` on at which `query` holds `=`, or the length
/// of `query` where there is none.
pub open spec fn next_equals(query: Seq<u8>, start: int) -> int
    decreases query.len() - start,
{
    if start >= query.len() {
        query.len() as int
    } else if query[start] == 61 {
        start
    } else {
        next_equals(query, start + 1)
    }
}

/// The index at or after `start` of the next `=`, or the length of the query.
fn find_equals(query: &Vec<u8>, start: usize) -> (at: usize)
    requires
        start <= query@.len(),
    ensures
        at == next_equals(query@, start as int),
        start <= at <= query@.len(),
{
    let mut at: usize = start;
    while at < query.len() && query[at] != 61
        invariant
            start <= at <= query@.len(),
            next_equals(query@, start as int) == next_equals(query@, at as int),
        decreases query@.len() - at,
    {
        at += 1;
    }
    at
}

/// The name of the lobby in the query of an address: what stands between the
/// first `=` and the next, or the end. `None` where the query holds no `=`.
pub fn lobby_of_query(query: &Vec<u8>) -> (name: Option<Vec<u8>>)
    ensures
        next_equals(query@, 0) == query@.len() ==> name is None,
        next_equals(query@, 0) < query@.len() ==> name is Some && name->0@ == query@.subrange(
            next_equals(query@, 0) + 1,
            next_equals(query@, next_equals(query@, 0) + 1),
        ),
{
    let first: usize = find_equals(query, 0);
    if first == query.len() {
        return None;
    }
    let end: usize = find_equals(query, first + 1);
    let mut name: Vec<u8> = Vec::with_capacity(end - first - 1);
    let mut i: usize = first + 1;
    while i < end
        invariant
            first + 1 <= i <= end <= query@.len(),
            name@ == query@.subrange(first + 1, i as int),
        decreases end - i,
    {
        name.push(query[i]);
        assert(name@ =~= query@.subrange(first + 1, i + 1));
        i += 1;
    }
    Some(name)
}

} // verus!
