//! The rules of a session, as a state machine over mathematical values: what
//! each client message does to the board, the economies, the turn and the
//! phase, and which messages go out to whom.
//!
//! The board is kept in player 1's orientation. A message from player 2
//! names cells in player 2's orientation, the board turned by half a circle,
//! and is turned back before it is applied; a message to player 2 is turned
//! again.

use crate::board::{in_bounds, mirror_x, mirror_y, positions_agree};
use crate::card::{fits_i32, kill_reward, spawned, CardView, EntityView};
use crate::chat::{censored, chat_accepted, relayed_line};
use crate::messages::{ClientMessageView, OutboundView, ServerMessageView};
use vstd::prelude::*;

verus! {

/// The pawns that each player starts with.
pub const INITIAL_PAWNS: i32 = 6;

/// The spirits that each player starts with.
pub const INITIAL_SPIRITS: i32 = 8;

/// Where a session stands.
#[derive(Clone, Copy, Debug, PartialEq, Eq, Structural)]
pub enum Phase {
    /// Waiting for each player's name and deck.
    AwaitingDecks,
    /// The players take turns.
    Active,
    /// The game is over.
    Finished { player_1_won: bool },
}

/// The mathematical value of a player's economy.
pub struct EconomyView {
    /// How many more troops the player may have in play.
    pub pawns: int,
    /// The currency that the player spends on spawning.
    pub spirits: int,
}

/// The mathematical value of a session.
pub struct GameView {
    /// The occupied cells, in player 1's orientation.
    pub board: Map<(int, int), EntityView>,
    pub economy_1: EconomyView,
    pub economy_2: EconomyView,
    /// Whether it is player 1's turn.
    pub player_1_turn: bool,
    pub phase: Phase,
    pub username_1: Seq<char>,
    pub username_2: Seq<char>,
    pub deck_1: Option<Seq<CardView>>,
    pub deck_2: Option<Seq<CardView>>,
}

/// What one message does: the session after it, and the messages to send,
/// in order.
pub struct Step {
    pub state: GameView,
    pub output: Seq<OutboundView>,
}

/// What the profanity filter made of the chat texts of one round: of the
/// message of the player whose turn it is, and of each message in the
/// waiting player's queue, by its place in the queue. An entry for a message
/// that is no chat message, or whose text is over the limit, is not used.
pub struct Filtered {
    pub active: Seq<char>,
    pub waiting: Seq<Seq<char>>,
}

/// What one round of the session loop does: the session and the two inbound
/// queues after it, and the messages to send, in order.
pub struct Round {
    pub state: GameView,
    pub queue_1: Seq<ClientMessageView>,
    pub queue_2: Seq<ClientMessageView>,
    pub output: Seq<OutboundView>,
}

impl GameView {
    /// The board invariant: each entity's stored position is its cell.
    pub open spec fn wf(self) -> bool {
        positions_agree(self.board)
    }

    /// The economy of player 1 or of player 2.
    pub open spec fn economy(self, player_1: bool) -> EconomyView {
        if player_1 {
            self.economy_1
        } else {
            self.economy_2
        }
    }

    /// The session with the economy of one player replaced.
    pub open spec fn with_economy(self, player_1: bool, economy: EconomyView) -> GameView {
        if player_1 {
            GameView { economy_1: economy, ..self }
        } else {
            GameView { economy_2: economy, ..self }
        }
    }

    /// The name of player 1 or of player 2.
    pub open spec fn username(self, player_1: bool) -> Seq<char> {
        if player_1 {
            self.username_1
        } else {
            self.username_2
        }
    }

    /// The deck of player 1 or of player 2, once received.
    pub open spec fn deck(self, player_1: bool) -> Option<Seq<CardView>> {
        if player_1 {
            self.deck_1
        } else {
            self.deck_2
        }
    }

    /// The session with the name and deck of one player stored.
    pub open spec fn with_player(
        self,
        player_1: bool,
        username: Seq<char>,
        deck: Seq<CardView>,
    ) -> GameView {
        if player_1 {
            GameView { username_1: username, deck_1: Some(deck), ..self }
        } else {
            GameView { username_2: username, deck_2: Some(deck), ..self }
        }
    }

    /// The cell, in the board's own orientation, that the player whose turn
    /// it is means by `(x, y)`.
    pub open spec fn cell(self, x: int, y: int) -> (int, int) {
        if self.player_1_turn {
            (x, y)
        } else {
            (mirror_x(x), mirror_y(y))
        }
    }

    /// The session after the player whose turn it is was granted one spirit.
    pub open spec fn granted(self) -> GameView {
        let economy = self.economy(self.player_1_turn);
        self.with_economy(
            self.player_1_turn,
            EconomyView { spirits: economy.spirits + 1, ..economy },
        )
    }
}

/// A session that has just been created.
pub open spec fn initial() -> GameView {
    GameView {
        board: Map::empty(),
        economy_1: EconomyView { pawns: INITIAL_PAWNS as int, spirits: INITIAL_SPIRITS as int },
        economy_2: EconomyView { pawns: INITIAL_PAWNS as int, spirits: INITIAL_SPIRITS as int },
        player_1_turn: true,
        phase: Phase::AwaitingDecks,
        username_1: Seq::empty(),
        username_2: Seq::empty(),
        deck_1: None,
        deck_2: None,
    }
}

/// A step that changes nothing and sends nothing.
pub open spec fn unchanged(g: GameView) -> Step {
    Step { state: g, output: Seq::empty() }
}

/// One message for player 1, then one for player 2.
pub open spec fn to_both(first: ServerMessageView, second: ServerMessageView) -> Seq<
    OutboundView,
> {
    seq![
        OutboundView { to_player_1: true, message: first },
        OutboundView { to_player_1: false, message: second },
    ]
}

// ---------------------------------------------------------------------------
// MoveTroop
// ---------------------------------------------------------------------------

/// Whether the player whose turn it is may move from `(sx, sy)` to
/// `(ex, ey)`: the game is active, the source holds an entity of that player
/// that has neither moved nor attacked and is not stunned, and the
/// destination is an empty cell of the board.
pub open spec fn move_valid(g: GameView, sx: int, sy: int, ex: int, ey: int) -> bool {
    let s = g.cell(sx, sy);
    let e = g.cell(ex, ey);
    &&& g.phase is Active
    &&& g.board.dom().contains(s)
    &&& in_bounds(e.0, e.1)
    &&& !g.board.dom().contains(e)
    &&& g.board[s].owned_by_p1 == g.player_1_turn
    &&& !g.board[s].has_moved
    &&& !g.board[s].has_attacked
    &&& g.board[s].stun_count == 0
}

/// What `MoveTroop(sx, sy, ex, ey)` does.
pub open spec fn move_step(g: GameView, sx: int, sy: int, ex: int, ey: int) -> Step {
    let s = g.cell(sx, sy);
    let e = g.cell(ex, ey);
    if move_valid(g, sx, sy, ex, ey) {
        Step {
            state: GameView {
                board: g.board.remove(s).insert(e, g.board[s].with_moved().relocated(e.0, e.1)),
                ..g
            },
            output: to_both(
                ServerMessageView::MoveTroop(s.0, s.1, e.0, e.1),
                ServerMessageView::MoveTroop(
                    mirror_x(s.0),
                    mirror_y(s.1),
                    mirror_x(e.0),
                    mirror_y(e.1),
                ),
            ),
        }
    } else {
        unchanged(g)
    }
}

// ---------------------------------------------------------------------------
// AttackTroop
// ---------------------------------------------------------------------------

/// Whether the player whose turn it is may attack from `(sx, sy)` the entity
/// at `(ex, ey)`: the game is active, the source holds an entity of that
/// player that has attacks left and is not stunned, and the target is an
/// entity of the opponent.
pub open spec fn attack_valid(g: GameView, sx: int, sy: int, ex: int, ey: int) -> bool {
    let s = g.cell(sx, sy);
    let e = g.cell(ex, ey);
    &&& g.phase is Active
    &&& g.board.dom().contains(s)
    &&& g.board.dom().contains(e)
    &&& g.board[s].owned_by_p1 == g.player_1_turn
    &&& !g.board[s].has_attacked
    &&& g.board[s].stun_count == 0
    &&& g.board[e].owned_by_p1 != g.player_1_turn
}

/// The target of an attack after the attacker's stun and damage.
pub open spec fn struck(attacker: EntityView, defender: EntityView) -> EntityView {
    defender.stunned_by(attacker).damaged_by(attacker)
}

/// The attacker after an attack: it counts as moved, and the attack is
/// counted against its budget.
pub open spec fn spent(attacker: EntityView) -> EntityView {
    attacker.with_moved().action_consumed()
}

/// Whether every counter that an attack changes can hold its new value.
pub open spec fn attack_in_range(g: GameView, sx: int, sy: int, ex: int, ey: int) -> bool {
    let s = g.cell(sx, sy);
    let e = g.cell(ex, ey);
    let attacker = g.board[s];
    let defender = g.board[e];
    attack_valid(g, sx, sy, ex, ey) ==> {
        &&& fits_i32(defender.stunned_by(attacker).stun_count)
        &&& fits_i32(struck(attacker, defender).current_hp)
        &&& struck(attacker, defender).is_dead() ==> {
            &&& fits_i32(
                g.economy(g.player_1_turn).spirits + kill_reward(
                    attacker.card.abilities,
                    defender.card.cost,
                ),
            )
            &&& fits_i32(g.economy(!g.player_1_turn).pawns + 1)
        }
    }
}

/// The session after a kill: the attacker's owner earns the reward, and the
/// defender's owner gets a pawn back.
pub open spec fn kill_settled(g: GameView, attacker: EntityView, defender: EntityView) -> GameView {
    let winner = g.economy(g.player_1_turn);
    let loser = g.economy(!g.player_1_turn);
    g.with_economy(
        g.player_1_turn,
        EconomyView {
            spirits: winner.spirits + kill_reward(attacker.card.abilities, defender.card.cost),
            ..winner
        },
    ).with_economy(!g.player_1_turn, EconomyView { pawns: loser.pawns + 1, ..loser })
}

/// What `AttackTroop(sx, sy, ex, ey)` does.
pub open spec fn attack_step(g: GameView, sx: int, sy: int, ex: int, ey: int) -> Step {
    let s = g.cell(sx, sy);
    let e = g.cell(ex, ey);
    let attacker = g.board[s];
    let defender = g.board[e];
    if attack_valid(g, sx, sy, ex, ey) {
        let output = to_both(
            ServerMessageView::AttackTroop(s.0, s.1, e.0, e.1),
            ServerMessageView::AttackTroop(
                mirror_x(s.0),
                mirror_y(s.1),
                mirror_x(e.0),
                mirror_y(e.1),
            ),
        );
        if struck(attacker, defender).is_dead() {
            Step {
                state: GameView {
                    board: g.board.remove(s).insert(e, spent(attacker).relocated(e.0, e.1)),
                    ..kill_settled(g, attacker, defender)
                },
                output,
            }
        } else {
            Step {
                state: GameView {
                    board: g.board.insert(s, spent(attacker)).insert(
                        e,
                        struck(attacker, defender),
                    ),
                    ..g
                },
                output,
            }
        }
    } else {
        unchanged(g)
    }
}

// ---------------------------------------------------------------------------
// SpawnCard
// ---------------------------------------------------------------------------

/// Whether the player whose turn it is may spawn `card` at `(x, y)`: the
/// game is active, the cell is an empty cell of the board, and the player
/// has a pawn and the spirits that the card costs.
pub open spec fn spawn_valid(g: GameView, card: CardView, x: int, y: int) -> bool {
    let p = g.cell(x, y);
    &&& g.phase is Active
    &&& in_bounds(p.0, p.1)
    &&& !g.board.dom().contains(p)
    &&& g.economy(g.player_1_turn).pawns >= 1
    &&& g.economy(g.player_1_turn).spirits >= card.cost
}

/// Whether the spirits counter can hold what is left after the spawn.
pub open spec fn spawn_in_range(g: GameView, card: CardView, x: int, y: int) -> bool {
    spawn_valid(g, card, x, y) ==> fits_i32(g.economy(g.player_1_turn).spirits - card.cost)
}

/// What `SpawnCard(card, x, y)` does.
pub open spec fn spawn_step(g: GameView, card: CardView, x: int, y: int) -> Step {
    let p = g.cell(x, y);
    let economy = g.economy(g.player_1_turn);
    let entity = spawned(card, p.0, p.1, g.player_1_turn);
    if spawn_valid(g, card, x, y) {
        Step {
            state: GameView {
                board: g.board.insert(p, entity),
                ..g.with_economy(
                    g.player_1_turn,
                    EconomyView { pawns: economy.pawns - 1, spirits: economy.spirits - card.cost },
                )
            },
            output: to_both(
                ServerMessageView::SpawnCard(entity),
                ServerMessageView::SpawnCard(entity.relocated(mirror_x(p.0), mirror_y(p.1))),
            ),
        }
    } else {
        unchanged(g)
    }
}

// ---------------------------------------------------------------------------
// EndTurn
// ---------------------------------------------------------------------------

/// What `EndTurn` does in an active game: the other player is told that its
/// turn starts, the turn passes, and every entity on the board, of either
/// player, is prepared for a new turn.
pub open spec fn end_turn_step(g: GameView) -> Step {
    if g.phase is Active {
        Step {
            state: GameView {
                board: g.board.map_values(|e: EntityView| e.refreshed()),
                player_1_turn: !g.player_1_turn,
                ..g
            },
            output: seq![
                OutboundView {
                    to_player_1: !g.player_1_turn,
                    message: ServerMessageView::StartTurn,
                },
            ],
        }
    } else {
        unchanged(g)
    }
}

// ---------------------------------------------------------------------------
// WinGame
// ---------------------------------------------------------------------------

/// Whether the player whose turn it is wins by the entity at `(x, y)`: the
/// game is active, and the cell is in the first or the last row and holds an
/// entity of that player that is not stunned and has not moved this turn.
pub open spec fn win_valid(g: GameView, x: int, y: int) -> bool {
    let p = g.cell(x, y);
    &&& g.phase is Active
    &&& g.board.dom().contains(p)
    &&& (p.1 == 0 || p.1 == 8)
    &&& g.board[p].owned_by_p1 == g.player_1_turn
    &&& g.board[p].stun_count == 0
    &&& !g.board[p].has_moved
}

/// What `WinGame(x, y)` does.
pub open spec fn win_step(g: GameView, x: int, y: int) -> Step {
    if win_valid(g, x, y) {
        Step {
            state: GameView { phase: Phase::Finished { player_1_won: g.player_1_turn }, ..g },
            output: to_both(
                ServerMessageView::EndGame(g.player_1_turn),
                ServerMessageView::EndGame(!g.player_1_turn),
            ),
        }
    } else {
        unchanged(g)
    }
}

// ---------------------------------------------------------------------------
// ChatMessage
// ---------------------------------------------------------------------------

/// The messages that go out for a chat text from `username`, where `clean`
/// is what the filter made of the text: none where the text is over the
/// limit, else the same line to both players.
pub open spec fn chat_output(username: Seq<char>, text: Seq<char>, clean: Seq<char>) -> Seq<
    OutboundView,
> {
    match relayed_line(username, text, clean) {
        Some(line) => to_both(
            ServerMessageView::ChatMessage(line),
            ServerMessageView::ChatMessage(line),
        ),
        None => Seq::empty(),
    }
}

/// The messages that go out when a player chats, whoever's turn it is: in
/// an active game those for the text under the sender's name, else none.
pub open spec fn chat_step(
    g: GameView,
    from_player_1: bool,
    text: Seq<char>,
    clean: Seq<char>,
) -> Seq<OutboundView> {
    if g.phase is Active {
        chat_output(g.username(from_player_1), text, clean)
    } else {
        Seq::empty()
    }
}

// ---------------------------------------------------------------------------
// One message of the player whose turn it is
// ---------------------------------------------------------------------------

/// What a message of the player whose turn it is does, once it was taken
/// from the queue and the spirit for it was granted. Where the message is a
/// chat message, `clean` is what the filter made of its text.
pub open spec fn action_step(g: GameView, message: ClientMessageView, clean: Seq<char>) -> Step {
    match message {
        ClientMessageView::MoveTroop(sx, sy, ex, ey) => move_step(g, sx, sy, ex, ey),
        ClientMessageView::AttackTroop(sx, sy, ex, ey) => attack_step(g, sx, sy, ex, ey),
        ClientMessageView::SpawnCard(card, x, y) => spawn_step(g, card, x, y),
        ClientMessageView::EndTurn => end_turn_step(g),
        ClientMessageView::WinGame(x, y) => win_step(g, x, y),
        ClientMessageView::ChatMessage(text) => Step {
            state: g,
            output: chat_step(g, g.player_1_turn, text, clean),
        },
        ClientMessageView::PlayerInfo(_, _) => unchanged(g),
        ClientMessageView::Resign => unchanged(g),
    }
}

/// Whether every counter that the message changes can hold its new value.
pub open spec fn action_in_range(g: GameView, message: ClientMessageView) -> bool {
    match message {
        ClientMessageView::AttackTroop(sx, sy, ex, ey) => attack_in_range(g, sx, sy, ex, ey),
        ClientMessageView::SpawnCard(card, x, y) => spawn_in_range(g, card, x, y),
        _ => true,
    }
}

/// Whether every counter that handling the message changes can hold its new
/// value: the granted spirit, and what the message itself does.
pub open spec fn handle_in_range(g: GameView, message: ClientMessageView) -> bool {
    g.phase is Active ==> {
        &&& fits_i32(g.economy(g.player_1_turn).spirits + 1)
        &&& action_in_range(g.granted(), message)
    }
}

/// What handling one message of the player whose turn it is does: while the
/// game is active, that player is granted one spirit and the message is
/// applied; in any other phase nothing happens. Where the message is a chat
/// message, `clean` is what the filter made of its text.
pub open spec fn handle_step(g: GameView, message: ClientMessageView, clean: Seq<char>) -> Step {
    if g.phase is Active {
        action_step(g.granted(), message, clean)
    } else {
        unchanged(g)
    }
}

// ---------------------------------------------------------------------------
// Before the game: names and decks
// ---------------------------------------------------------------------------

/// The messages that start the game: player 1 learns that it is player 1
/// and that its turn starts, player 2 that it is player 2.
pub open spec fn start_output() -> Seq<OutboundView> {
    seq![
        OutboundView { to_player_1: true, message: ServerMessageView::StartGame(true) },
        OutboundView { to_player_1: true, message: ServerMessageView::StartTurn },
        OutboundView { to_player_1: false, message: ServerMessageView::StartGame(false) },
    ]
}

/// What a message does while the session waits for names and decks: the
/// first `PlayerInfo` of a player is stored, and the one that completes the
/// pair starts the game. Any other message is dropped.
pub open spec fn register_step(
    g: GameView,
    from_player_1: bool,
    message: ClientMessageView,
) -> Step {
    if g.phase is AwaitingDecks && g.deck(from_player_1) is None {
        match message {
            ClientMessageView::PlayerInfo(username, deck) => {
                let named = g.with_player(from_player_1, username, deck);
                if named.deck_1 is Some && named.deck_2 is Some {
                    Step {
                        state: GameView { phase: Phase::Active, ..named },
                        output: start_output(),
                    }
                } else {
                    unchanged(named)
                }
            },
            _ => unchanged(g),
        }
    } else {
        unchanged(g)
    }
}

// ---------------------------------------------------------------------------
// One round of the session loop
// ---------------------------------------------------------------------------

/// Whether a message is a chat message.
pub open spec fn is_chat(message: ClientMessageView) -> bool {
    message is ChatMessage
}

/// The messages that go out for one queued message of the waiting player,
/// where `clean` is what the filter made of its text.
pub open spec fn message_chat(
    username: Seq<char>,
    message: ClientMessageView,
    clean: Seq<char>,
) -> Seq<OutboundView> {
    match message {
        ClientMessageView::ChatMessage(text) => chat_output(username, text, clean),
        _ => Seq::empty(),
    }
}

/// The messages that go out for the chat messages in the waiting player's
/// queue, oldest first, where `cleans` holds for each message of the queue
/// what the filter made of its text.
pub open spec fn waiting_chat(
    username: Seq<char>,
    queue: Seq<ClientMessageView>,
    cleans: Seq<Seq<char>>,
) -> Seq<OutboundView>
    recommends
        cleans.len() == queue.len(),
    decreases queue.len(),
{
    if queue.len() == 0 {
        Seq::empty()
    } else {
        waiting_chat(username, queue.drop_last(), cleans.drop_last()) + message_chat(
            username,
            queue.last(),
            cleans.last(),
        )
    }
}

/// The waiting player's queue without its chat messages.
pub open spec fn without_chat(queue: Seq<ClientMessageView>) -> Seq<ClientMessageView> {
    queue.filter(|m: ClientMessageView| !is_chat(m))
}

/// What serving one player's queue does: the session and that queue after
/// it, and the messages to send, in order.
pub struct Served {
    pub state: GameView,
    pub queue: Seq<ClientMessageView>,
    pub output: Seq<OutboundView>,
}

/// Serving one player's queue while the session waits for names and decks:
/// if that player's deck is missing and its queue holds a message, the
/// oldest one is taken and registered.
pub open spec fn lobby_turn(
    g: GameView,
    from_player_1: bool,
    queue: Seq<ClientMessageView>,
) -> Served {
    if g.phase is AwaitingDecks && g.deck(from_player_1) is None && queue.len() > 0 {
        let step = register_step(g, from_player_1, queue[0]);
        Served { state: step.state, queue: queue.skip(1), output: step.output }
    } else {
        Served { state: g, queue, output: Seq::empty() }
    }
}

/// A round while the session waits for names and decks: first player 1's
/// queue is served, then player 2's.
pub open spec fn lobby_round(
    g: GameView,
    queue_1: Seq<ClientMessageView>,
    queue_2: Seq<ClientMessageView>,
) -> Round {
    let first = lobby_turn(g, true, queue_1);
    let second = lobby_turn(first.state, false, queue_2);
    Round {
        state: second.state,
        queue_1: first.queue,
        queue_2: second.queue,
        output: first.output + second.output,
    }
}

/// Whether every counter that a round of the game changes can hold its new
/// value, given the queue of the player whose turn it is.
pub open spec fn play_in_range(g: GameView, active: Seq<ClientMessageView>) -> bool {
    active.len() > 0 ==> handle_in_range(g, active[0])
}

/// A round of the game, given the queue of the player whose turn it is and
/// the queue of the waiting player: every chat message in the waiting
/// player's queue is taken out and relayed under that player's name, the
/// rest of that queue staying in order; and the oldest message of the player
/// whose turn it is, if there is one, is taken and handled. The relayed chat
/// goes out first. The result holds the active queue as `queue_1` and the
/// waiting queue as `queue_2`.
pub open spec fn play(
    g: GameView,
    active: Seq<ClientMessageView>,
    waiting: Seq<ClientMessageView>,
    filtered: Filtered,
) -> Round
    recommends
        filtered.waiting.len() == waiting.len(),
{
    let step = if active.len() > 0 {
        handle_step(g, active[0], filtered.active)
    } else {
        unchanged(g)
    };
    Round {
        state: step.state,
        queue_1: if active.len() > 0 {
            active.skip(1)
        } else {
            active
        },
        queue_2: without_chat(waiting),
        output: waiting_chat(g.username(!g.player_1_turn), waiting, filtered.waiting)
            + step.output,
    }
}

/// Whether every counter that a round of an active game changes can hold
/// its new value.
pub open spec fn turn_round_in_range(
    g: GameView,
    queue_1: Seq<ClientMessageView>,
    queue_2: Seq<ClientMessageView>,
) -> bool {
    if g.player_1_turn {
        play_in_range(g, queue_1)
    } else {
        play_in_range(g, queue_2)
    }
}

/// A round of an active game: the queue of the player whose turn it is is
/// the active one, the other player's the waiting one.
pub open spec fn turn_round(
    g: GameView,
    queue_1: Seq<ClientMessageView>,
    queue_2: Seq<ClientMessageView>,
    filtered: Filtered,
) -> Round {
    if g.player_1_turn {
        play(g, queue_1, queue_2, filtered)
    } else {
        let played = play(g, queue_2, queue_1, filtered);
        Round { queue_1: played.queue_2, queue_2: played.queue_1, ..played }
    }
}

/// Whether every counter that a round changes can hold its new value.
pub open spec fn round_in_range(
    g: GameView,
    queue_1: Seq<ClientMessageView>,
    queue_2: Seq<ClientMessageView>,
) -> bool {
    g.phase is Active ==> turn_round_in_range(g, queue_1, queue_2)
}

/// What the profanity filter makes of the text of a message: of a chat
/// message its filtered text; any other message has no text to filter.
pub open spec fn filtered_text(message: ClientMessageView) -> Seq<char> {
    match message {
        ClientMessageView::ChatMessage(text) => censored(text),
        _ => Seq::empty(),
    }
}

/// What the profanity filter makes of the texts of the messages of a queue,
/// by their place in the queue.
pub open spec fn filtered_queue(queue: Seq<ClientMessageView>) -> Seq<Seq<char>> {
    Seq::new(queue.len(), |i: int| filtered_text(queue[i]))
}

/// What the profanity filter makes of the chat texts of a round of the
/// game, given the queue of the player whose turn it is and that of the
/// waiting player.
pub open spec fn play_filtered(
    active: Seq<ClientMessageView>,
    waiting: Seq<ClientMessageView>,
) -> Filtered {
    Filtered {
        active: if active.len() > 0 {
            filtered_text(active[0])
        } else {
            Seq::empty()
        },
        waiting: filtered_queue(waiting),
    }
}

/// What the profanity filter makes of the chat texts of a round.
pub open spec fn round_filtered(
    g: GameView,
    queue_1: Seq<ClientMessageView>,
    queue_2: Seq<ClientMessageView>,
) -> Filtered {
    if g.player_1_turn {
        play_filtered(queue_1, queue_2)
    } else {
        play_filtered(queue_2, queue_1)
    }
}

/// What the filter made of a text matters only for a chat message whose
/// text is within the limit: any other message is handled, and relayed from
/// the waiting queue, the same whatever stands in its place.
pub proof fn lemma_only_accepted_chat_is_filtered(
    g: GameView,
    message: ClientMessageView,
    one: Seq<char>,
    other: Seq<char>,
)
    requires
        message is ChatMessage ==> !chat_accepted(message->ChatMessage_0),
    ensures
        handle_step(g, message, one) == handle_step(g, message, other),
        message_chat(g.username(!g.player_1_turn), message, one) == message_chat(
            g.username(!g.player_1_turn),
            message,
            other,
        ),
{
}

/// One round of the session loop, whatever the phase. A finished session
/// does nothing. Only a round of an active game relays chat and so depends
/// on what the filter made of the texts.
pub open spec fn round(
    g: GameView,
    queue_1: Seq<ClientMessageView>,
    queue_2: Seq<ClientMessageView>,
    filtered: Filtered,
) -> Round {
    match g.phase {
        Phase::AwaitingDecks => lobby_round(g, queue_1, queue_2),
        Phase::Active => turn_round(g, queue_1, queue_2, filtered),
        Phase::Finished { .. } => Round { state: g, queue_1, queue_2, output: Seq::empty() },
    }
}

} // verus!
