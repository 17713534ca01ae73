//! The authoritative session engine of a two-player, turn-based card game:
//! the wire framing, the pairing of players, the board and turn rules, and
//! the card abilities.

pub mod card;
pub mod catalog;
pub mod messages;
pub mod board;
pub mod chat;
pub mod codec;
pub mod rules;
pub mod game;
pub mod laws;
pub mod matchmaker;
pub mod utils;
pub mod packets;
pub mod ui;
