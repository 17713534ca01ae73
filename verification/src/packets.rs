//! The two packets that open a game and a turn, as plain JSON objects.

use crate::board::{mirror_x, mirror_y};
use crate::card::{spawned, Card, CardEntity};
use crate::messages::{ServerMessage, ServerMessageView};
use crate::utils::{to_p2_x, to_p2_y};
use vstd::prelude::*;

verus! {

/// The kind of a packet.
#[derive(Clone, Copy, Debug, PartialEq, Eq, Structural)]
pub enum PacketType {
    ServerStartGame,
    StartTurn,
}

/// A packet: its kind, and for the start of a game whether the receiver is
/// player 1.
#[derive(Clone, Copy, Debug, PartialEq, Eq)]
pub struct Packet {
    pub type_: PacketType,
    pub player_1: Option<bool>,
}

impl Packet {
    /// The packet of the given kind. Only the start of a game says which
    /// player the receiver is.
    pub fn start_game(type_: PacketType, player_1: bool) -> (packet: Packet)
        ensures
            packet.type_ == type_,
            type_ is ServerStartGame ==> packet.player_1 == Some(player_1),
            type_ is StartTurn ==> packet.player_1 is None,
    {
        match type_ {
            PacketType::ServerStartGame => Packet { type_, player_1: Some(player_1) },
            PacketType::StartTurn => Packet { type_, player_1: None },
        }
    }

    /// The troop that a packet announcing a spawn carries: a fresh entity of
    /// the card at `(x_pos, y_pos)`, or, with `flip_board`, at the cell that
    /// the second player sees there. `flip_board` must be set when the
    /// packet goes to the second player.
    pub fn spawn_troop(
        card: &Card,
        x_pos: i32,
        y_pos: i32,
        is_owned_by_p1: bool,
        flip_board: bool,
    ) -> (troop: CardEntity)
        requires
            flip_board ==> mirror_x(x_pos as int) <= i32::MAX && mirror_y(y_pos as int)
                <= i32::MAX,
        ensures
            !flip_board ==> troop@ == spawned(card@, x_pos as int, y_pos as int, is_owned_by_p1),
            flip_board ==> troop@ == spawned(
                card@,
                mirror_x(x_pos as int),
                mirror_y(y_pos as int),
                is_owned_by_p1,
            ),
    {
        if flip_board {
            CardEntity::new(card, to_p2_x(x_pos), to_p2_y(y_pos), is_owned_by_p1)
        } else {
            CardEntity::new(card, x_pos, y_pos, is_owned_by_p1)
        }
    }

    /// The packet's text on the wire.
    pub fn json(&self) -> (text: &'static str)
        ensures
            self.type_ is StartTurn ==> text@ == "{\"packet-type\":\"start-turn\"}"@,
            self.type_ is ServerStartGame && self.player_1 == Some(true) ==> text@
                == "{\"packet-type\":\"server-start-game\",\"player-1\":true}"@,
            self.type_ is ServerStartGame && self.player_1 != Some(true) ==> text@
                == "{\"packet-type\":\"server-start-game\",\"player-1\":false}"@,
    {
        match self.type_ {
            PacketType::StartTurn => "{\"packet-type\":\"start-turn\"}",
            PacketType::ServerStartGame => match self.player_1 {
                Some(true) => "{\"packet-type\":\"server-start-game\",\"player-1\":true}",
                _ => "{\"packet-type\":\"server-start-game\",\"player-1\":false}",
            },
        }
    }

    /// The message that says the same as the packet.
    pub fn message(&self) -> (message: ServerMessage)
        ensures
            self.type_ is StartTurn ==> message@ == ServerMessageView::StartTurn,
            self.type_ is ServerStartGame ==> message@ == ServerMessageView::StartGame(
                self.player_1 == Some(true),
            ),
    {
        match self.type_ {
            PacketType::StartTurn => ServerMessage::StartTurn,
            PacketType::ServerStartGame => ServerMessage::StartGame(
                match self.player_1 {
                    Some(true) => true,
                    _ => false,
                },
            ),
        }
    }
}

} // verus!
