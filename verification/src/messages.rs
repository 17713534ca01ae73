//! The protocol messages that clients and the session exchange, and the
//! addressed form in which the session hands messages out.

use crate::card::{Card, CardEntity, CardView, EntityView};
use vstd::prelude::*;

verus! {

/// What a client sends to the session. Coordinates are in the sender's own
/// orientation of the board.
#[derive(Debug, PartialEq, Eq)]
pub enum ClientMessage {
    /// The player's name and deck.
    PlayerInfo(String, Vec<Card>),
    /// Start column, start row, end column, end row.
    MoveTroop(i32, i32, i32, i32),
    /// Attacker's column and row, target's column and row.
    AttackTroop(i32, i32, i32, i32),
    /// The card to spawn, then column and row.
    SpawnCard(Card, i32, i32),
    EndTurn,
    /// Column and row of the entity that claims the win.
    WinGame(i32, i32),
    ChatMessage(String),
    Resign,
}

/// What the session sends to a client. Coordinates are in the receiver's own
/// orientation of the board.
#[derive(Debug, PartialEq, Eq)]
pub enum ServerMessage {
    /// Whether the receiver is player 1.
    StartGame(bool),
    StartTurn,
    SpawnCard(CardEntity),
    /// Start column, start row, end column, end row.
    MoveTroop(i32, i32, i32, i32),
    /// Attacker's column and row, target's column and row.
    AttackTroop(i32, i32, i32, i32),
    /// Whether the receiver has won.
    EndGame(bool),
    ChatMessage(String),
}

/// A message of the session together with the player it is for.
#[derive(Debug, PartialEq, Eq)]
pub struct Outbound {
    pub to_player_1: bool,
    pub message: ServerMessage,
}

/// The mathematical value of a [`ClientMessage`].
pub enum ClientMessageView {
    PlayerInfo(Seq<char>, Seq<CardView>),
    MoveTroop(int, int, int, int),
    AttackTroop(int, int, int, int),
    SpawnCard(CardView, int, int),
    EndTurn,
    WinGame(int, int),
    ChatMessage(Seq<char>),
    Resign,
}

/// The mathematical value of a [`ServerMessage`].
pub enum ServerMessageView {
    StartGame(bool),
    StartTurn,
    SpawnCard(EntityView),
    MoveTroop(int, int, int, int),
    AttackTroop(int, int, int, int),
    EndGame(bool),
    ChatMessage(Seq<char>),
}

/// The mathematical value of an [`Outbound`].
pub struct OutboundView {
    pub to_player_1: bool,
    pub message: ServerMessageView,
}

/// The cards of a deck, each by its value.
pub open spec fn deck_view(deck: Seq<Card>) -> Seq<CardView> {
    Seq::new(deck.len(), |i: int| deck[i]@)
}

/// The messages of a queue, each by its value, oldest first.
pub open spec fn queue_view(queue: Seq<ClientMessage>) -> Seq<ClientMessageView> {
    Seq::new(queue.len(), |i: int| queue[i]@)
}

/// The messages of a list of outbound messages, each by its value, in the
/// order in which they are to be sent.
pub open spec fn outbound_view(out: Seq<Outbound>) -> Seq<OutboundView> {
    Seq::new(out.len(), |i: int| out[i]@)
}

impl View for ClientMessage {
    type V = ClientMessageView;

    open spec fn view(&self) -> ClientMessageView {
        match self {
            ClientMessage::PlayerInfo(username, deck) => ClientMessageView::PlayerInfo(
                username@,
                deck_view(deck@),
            ),
            ClientMessage::MoveTroop(sx, sy, ex, ey) => ClientMessageView::MoveTroop(
                *sx as int,
                *sy as int,
                *ex as int,
                *ey as int,
            ),
            ClientMessage::AttackTroop(sx, sy, ex, ey) => ClientMessageView::AttackTroop(
                *sx as int,
                *sy as int,
                *ex as int,
                *ey as int,
            ),
            ClientMessage::SpawnCard(card, x, y) => ClientMessageView::SpawnCard(
                card@,
                *x as int,
                *y as int,
            ),
            ClientMessage::EndTurn => ClientMessageView::EndTurn,
            ClientMessage::WinGame(x, y) => ClientMessageView::WinGame(*x as int, *y as int),
            ClientMessage::ChatMessage(text) => ClientMessageView::ChatMessage(text@),
            ClientMessage::Resign => ClientMessageView::Resign,
        }
    }
}

impl View for ServerMessage {
    type V = ServerMessageView;

    open spec fn view(&self) -> ServerMessageView {
        match self {
            ServerMessage::StartGame(is_player_1) => ServerMessageView::StartGame(*is_player_1),
            ServerMessage::StartTurn => ServerMessageView::StartTurn,
            ServerMessage::SpawnCard(entity) => ServerMessageView::SpawnCard(entity@),
            ServerMessage::MoveTroop(sx, sy, ex, ey) => ServerMessageView::MoveTroop(
                *sx as int,
                *sy as int,
                *ex as int,
                *ey as int,
            ),
            ServerMessage::AttackTroop(sx, sy, ex, ey) => ServerMessageView::AttackTroop(
                *sx as int,
                *sy as int,
                *ex as int,
                *ey as int,
            ),
            ServerMessage::EndGame(won) => ServerMessageView::EndGame(*won),
            ServerMessage::ChatMessage(text) => ServerMessageView::ChatMessage(text@),
        }
    }
}

impl View for Outbound {
    type V = OutboundView;

    open spec fn view(&self) -> OutboundView {
        OutboundView { to_player_1: self.to_player_1, message: self.message@ }
    }
}

} // verus!
