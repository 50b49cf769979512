//! Connect Four: a bitboard, a depth-bounded alpha-beta search over it, and
//! the rules that carry a game between two players.

pub mod ai;
pub mod bindings;
pub mod bits;
pub mod board_state;
pub mod constants;
pub mod disk_data;
pub mod disks;
pub mod lobby;
pub mod net;
pub mod position_lookup_table;
pub mod protocol;
pub mod second_player_extension;
pub mod util;
