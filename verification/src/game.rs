//! A session between two players: the board, both economies, whose turn it
//! is and the phase, with the function that carries out each client message
//! and says which messages go out.

use crate::board::{in_bounds, Board, BOARD_HEIGHT};
use crate::card::{Card, CardEntity, CardView, Overflow};
use crate::chat::{censored, filter_chat, relay_line};
use crate::messages::{deck_view, outbound_view, queue_view};
use crate::messages::{ClientMessage, ClientMessageView, Outbound, OutboundView, ServerMessage};
use crate::rules::{
    attack_in_range, attack_step, chat_output, chat_step, end_turn_step, filtered_queue,
    filtered_text, handle_in_range, handle_step, initial, lemma_only_accepted_chat_is_filtered,
    lobby_turn, move_step, play, play_filtered, play_in_range, register_step, round,
    round_filtered, round_in_range, spawn_in_range, spawn_step, spent, start_output, struck,
    to_both, waiting_chat, win_step, without_chat,
};
use crate::rules::{EconomyView, GameView, Phase, INITIAL_PAWNS, INITIAL_SPIRITS};
use crate::utils::{to_p2_x, to_p2_y};
use std::collections::VecDeque;
use vstd::prelude::*;

verus! {

/// A player's resources.
#[derive(Clone, Copy, Debug, PartialEq, Eq)]
pub struct PlayerEconomy {
    /// How many more troops the player may have in play.
    pub pawns: i32,
    /// The currency that the player spends on spawning.
    pub spirits: i32,
}

impl View for PlayerEconomy {
    type V = EconomyView;

    open spec fn view(&self) -> EconomyView {
        EconomyView { pawns: self.pawns as int, spirits: self.spirits as int }
    }
}

/// A session between two players.
#[derive(Debug, PartialEq, Eq)]
pub struct Game {
    board: Board,
    economy_1: PlayerEconomy,
    economy_2: PlayerEconomy,
    is_player_1_turn: bool,
    phase: Phase,
    username_1: String,
    username_2: String,
    deck_1: Option<Vec<Card>>,
    deck_2: Option<Vec<Card>>,
}

/// The value of a deck that may not have arrived yet.
spec fn stored_deck(deck: Option<Vec<Card>>) -> Option<Seq<CardView>> {
    match deck {
        Some(cards) => Some(deck_view(cards@)),
        None => None,
    }
}

impl View for Game {
    type V = GameView;

    closed spec fn view(&self) -> GameView {
        GameView {
            board: self.board@,
            economy_1: self.economy_1@,
            economy_2: self.economy_2@,
            player_1_turn: self.is_player_1_turn,
            phase: self.phase,
            username_1: self.username_1@,
            username_2: self.username_2@,
            deck_1: stored_deck(self.deck_1),
            deck_2: stored_deck(self.deck_2),
        }
    }
}

impl Game {
    /// The session's board is whole.
    pub closed spec fn wf(&self) -> bool {
        self.board.wf()
    }

    /// In a whole session every entity's stored position is its cell.
    pub proof fn lemma_wf_view(&self)
        requires
            self.wf(),
        ensures
            self@.wf(),
    {
        self.board.lemma_positions_agree();
    }

    /// A new session: an empty board, 6 pawns and 8 spirits for each player,
    /// player 1 to move first, and both decks still awaited.
    pub fn new() -> (game: Game)
        ensures
            game.wf(),
            game@ == initial(),
    {
        let game = Game {
            board: Board::new(),
            economy_1: PlayerEconomy { pawns: INITIAL_PAWNS, spirits: INITIAL_SPIRITS },
            economy_2: PlayerEconomy { pawns: INITIAL_PAWNS, spirits: INITIAL_SPIRITS },
            is_player_1_turn: true,
            phase: Phase::AwaitingDecks,
            username_1: String::new(),
            username_2: String::new(),
            deck_1: None,
            deck_2: None,
        };
        assert(game@ =~= initial());
        game
    }

    /// The phase of the session.
    pub fn phase(&self) -> (phase: Phase)
        ensures
            phase == self@.phase,
    {
        self.phase
    }

    /// Whether the players are taking turns.
    pub fn is_active(&self) -> (active: bool)
        ensures
            active == (self@.phase is Active),
    {
        match self.phase {
            Phase::Active => true,
            _ => false,
        }
    }

    /// Whether the game is over.
    pub fn is_finished(&self) -> (finished: bool)
        ensures
            finished == (self@.phase is Finished),
    {
        match self.phase {
            Phase::Finished { .. } => true,
            _ => false,
        }
    }

    /// Whether it is player 1's turn.
    pub fn is_player_1_turn(&self) -> (first: bool)
        ensures
            first == self@.player_1_turn,
    {
        self.is_player_1_turn
    }

    /// The economy of player 1 or of player 2.
    pub fn economy(&self, player_1: bool) -> (economy: PlayerEconomy)
        ensures
            economy@ == self@.economy(player_1),
    {
        if player_1 {
            self.economy_1
        } else {
            self.economy_2
        }
    }

    /// The name of player 1 or of player 2; empty until it has arrived.
    pub fn username(&self, player_1: bool) -> (username: &String)
        ensures
            username@ == self@.username(player_1),
    {
        if player_1 {
            &self.username_1
        } else {
            &self.username_2
        }
    }

    /// The deck of player 1 or of player 2, once it has arrived.
    pub fn deck(&self, player_1: bool) -> (deck: Option<&Vec<Card>>)
        ensures
            deck is Some <==> self@.deck(player_1) is Some,
            deck is Some ==> deck_view(deck->0@) == self@.deck(player_1)->0,
    {
        if player_1 {
            self.deck_1.as_ref()
        } else {
            self.deck_2.as_ref()
        }
    }

    /// The entity in cell `(x, y)` of the board, in player 1's orientation.
    pub fn entity_at(&self, x: i32, y: i32) -> (entity: Option<&CardEntity>)
        requires
            self.wf(),
        ensures
            entity is Some <==> self@.board.dom().contains((x as int, y as int)),
            entity is Some ==> entity->0@ == self@.board[(x as int, y as int)],
    {
        self.board.get(x, y)
    }

    /// Replaces the economy of one player.
    fn set_economy(&mut self, player_1: bool, economy: PlayerEconomy)
        requires
            old(self).wf(),
        ensures
            final(self).wf(),
            final(self)@ == old(self)@.with_economy(player_1, economy@),
    {
        if player_1 {
            self.economy_1 = economy;
        } else {
            self.economy_2 = economy;
        }
    }

    /// The cell of the board that the player whose turn it is means by
    /// `(x, y)`, if the board has it.
    fn cell(&self, x: i32, y: i32) -> (res: Option<(i32, i32)>)
        ensures
            res is Some <==> in_bounds(
                self@.cell(x as int, y as int).0,
                self@.cell(x as int, y as int).1,
            ),
            match res {
                Some((cx, cy)) => (cx as int, cy as int) == self@.cell(x as int, y as int),
                None => true,
            },
    {
        if !Board::contains(x, y) {
            None
        } else if self.is_player_1_turn {
            Some((x, y))
        } else {
            Some((to_p2_x(x), to_p2_y(y)))
        }
    }

    /// One message for player 1, then one for player 2.
    fn both(first: ServerMessage, second: ServerMessage) -> (out: Vec<Outbound>)
        ensures
            outbound_view(out@) == to_both(first@, second@),
    {
        let mut out: Vec<Outbound> = Vec::new();
        out.push(Outbound { to_player_1: true, message: first });
        out.push(Outbound { to_player_1: false, message: second });
        assert(outbound_view(out@) =~= to_both(first@, second@));
        out
    }

    /// No message.
    fn nothing() -> (out: Vec<Outbound>)
        ensures
            outbound_view(out@) == Seq::<OutboundView>::empty(),
    {
        let out: Vec<Outbound> = Vec::new();
        assert(outbound_view(out@) =~= Seq::<OutboundView>::empty());
        out
    }

    /// Carries out `MoveTroop`: if the move is valid, the entity goes to the
    /// destination and counts as moved, and both players are told, each in
    /// its own orientation. An invalid move changes nothing and sends
    /// nothing.
    pub fn move_troop(&mut self, start_x: i32, start_y: i32, end_x: i32, end_y: i32) -> (out: Vec<
        Outbound,
    >)
        requires
            old(self).wf(),
        ensures
            final(self).wf(),
            final(self)@ == move_step(
                old(self)@,
                start_x as int,
                start_y as int,
                end_x as int,
                end_y as int,
            ).state,
            outbound_view(out@) == move_step(
                old(self)@,
                start_x as int,
                start_y as int,
                end_x as int,
                end_y as int,
            ).output,
    {
        proof {
            self.board.lemma_positions_agree();
        }
        if !self.is_active() {
            return Game::nothing();
        }
        let s: (i32, i32) = match self.cell(start_x, start_y) {
            Some(s) => s,
            None => {
                return Game::nothing();
            },
        };
        let e: (i32, i32) = match self.cell(end_x, end_y) {
            Some(e) => e,
            None => {
                return Game::nothing();
            },
        };
        let ready: bool = match self.board.get(s.0, s.1) {
            Some(entity) => entity.is_owned_by_p1() == self.is_player_1_turn
                && !entity.has_moved() && !entity.has_attacked() && entity.get_stun_count() == 0,
            None => false,
        };
        if !ready || self.board.get(e.0, e.1).is_some() {
            return Game::nothing();
        }
        let mut entity: CardEntity = self.board.take(s.0, s.1).unwrap();
        entity.moved();
        entity.set_x_pos(e.0);
        entity.set_y_pos(e.1);
        let _placed = self.board.place(entity);
        Game::both(
            ServerMessage::MoveTroop(s.0, s.1, e.0, e.1),
            ServerMessage::MoveTroop(
                to_p2_x(s.0),
                to_p2_y(s.1),
                to_p2_x(e.0),
                to_p2_y(e.1),
            ),
        )
    }

    /// Carries out `AttackTroop`: if the attack is valid, the target takes
    /// the attacker's stun and damage, the attacker counts as moved and the
    /// attack is counted against its budget; a target whose health is used
    /// up leaves the board, the attacker takes its cell, the attacker's owner
    /// earns the reward and the target's owner gets a pawn back. Both players
    /// are told, each in its own orientation. An invalid attack changes
    /// nothing and sends nothing. Where a counter cannot hold its new value,
    /// nothing changes and `Overflow` comes back.
    pub fn attack_troop(&mut self, start_x: i32, start_y: i32, end_x: i32, end_y: i32) -> (res:
        Result<Vec<Outbound>, Overflow>)
        requires
            old(self).wf(),
        ensures
            final(self).wf(),
            res is Ok <==> attack_in_range(
                old(self)@,
                start_x as int,
                start_y as int,
                end_x as int,
                end_y as int,
            ),
            res is Ok ==> final(self)@ == attack_step(
                old(self)@,
                start_x as int,
                start_y as int,
                end_x as int,
                end_y as int,
            ).state && outbound_view(res->Ok_0@) == attack_step(
                old(self)@,
                start_x as int,
                start_y as int,
                end_x as int,
                end_y as int,
            ).output,
            res is Err ==> final(self)@ == old(self)@,
    {
        proof {
            self.board.lemma_positions_agree();
        }
        if !self.is_active() {
            return Ok(Game::nothing());
        }
        let s: (i32, i32) = match self.cell(start_x, start_y) {
            Some(s) => s,
            None => {
                return Ok(Game::nothing());
            },
        };
        let e: (i32, i32) = match self.cell(end_x, end_y) {
            Some(e) => e,
            None => {
                return Ok(Game::nothing());
            },
        };
        let attacker: CardEntity = match self.board.get(s.0, s.1) {
            Some(entity) => entity.clone(),
            None => {
                return Ok(Game::nothing());
            },
        };
        let mut defender: CardEntity = match self.board.get(e.0, e.1) {
            Some(entity) => entity.clone(),
            None => {
                return Ok(Game::nothing());
            },
        };
        let first: bool = self.is_player_1_turn;
        if attacker.is_owned_by_p1() != first || attacker.has_attacked()
            || attacker.get_stun_count() != 0 || defender.is_owned_by_p1() == first {
            return Ok(Game::nothing());
        }
        let ghost hit = attacker@;
        let ghost target = defender@;
        if defender.apply_stun_on_attack(&attacker).is_err() {
            return Err(Overflow);
        }
        if defender.take_damage(&attacker).is_err() {
            return Err(Overflow);
        }
        assert(defender@ == struck(hit, target));
        let mut attacker: CardEntity = attacker;
        if defender.is_dead() {
            let reward: i32 = attacker.reward_on_kill(&defender.get_card());
            let winner: PlayerEconomy = self.economy(first);
            let loser: PlayerEconomy = self.economy(!first);
            let spirits: i32 = match winner.spirits.checked_add(reward) {
                Some(v) => v,
                None => {
                    return Err(Overflow);
                },
            };
            let pawns: i32 = match loser.pawns.checked_add(1) {
                Some(v) => v,
                None => {
                    return Err(Overflow);
                },
            };
            attacker.moved();
            attacker.attacked();
            attacker.set_x_pos(e.0);
            attacker.set_y_pos(e.1);
            let _from = self.board.take(s.0, s.1);
            let _killed = self.board.take(e.0, e.1);
            let _placed = self.board.place(attacker);
            self.set_economy(first, PlayerEconomy { spirits, ..winner });
            self.set_economy(!first, PlayerEconomy { pawns, ..loser });
            assert(self@.board =~= old(self)@.board.remove((s.0 as int, s.1 as int)).insert(
                (e.0 as int, e.1 as int),
                spent(hit).relocated(e.0 as int, e.1 as int),
            ));
        } else {
            attacker.moved();
            attacker.attacked();
            let _from = self.board.take(s.0, s.1);
            let _to = self.board.take(e.0, e.1);
            let _placed = self.board.place(attacker);
            let _back = self.board.place(defender);
            assert(self@.board =~= old(self)@.board.insert(
                (s.0 as int, s.1 as int),
                spent(hit),
            ).insert((e.0 as int, e.1 as int), struck(hit, target)));
        }
        Ok(
            Game::both(
                ServerMessage::AttackTroop(s.0, s.1, e.0, e.1),
                ServerMessage::AttackTroop(
                    to_p2_x(s.0),
                    to_p2_y(s.1),
                    to_p2_x(e.0),
                    to_p2_y(e.1),
                ),
            ),
        )
    }

    /// Carries out `SpawnCard`: if the spawn is valid, an entity of the card
    /// is put on the cell for the player whose turn it is, who pays one pawn
    /// and the card's cost in spirits, and both players are told, each in its
    /// own orientation. An invalid spawn changes nothing and sends nothing.
    /// Where the spirits counter cannot hold its new value, nothing changes
    /// and `Overflow` comes back.
    pub fn spawn_card(&mut self, card: &Card, x: i32, y: i32) -> (res: Result<
        Vec<Outbound>,
        Overflow,
    >)
        requires
            old(self).wf(),
        ensures
            final(self).wf(),
            res is Ok <==> spawn_in_range(old(self)@, card@, x as int, y as int),
            res is Ok ==> final(self)@ == spawn_step(old(self)@, card@, x as int, y as int).state
                && outbound_view(res->Ok_0@) == spawn_step(
                old(self)@,
                card@,
                x as int,
                y as int,
            ).output,
            res is Err ==> final(self)@ == old(self)@,
    {
        proof {
            self.board.lemma_positions_agree();
        }
        if !self.is_active() {
            return Ok(Game::nothing());
        }
        let p: (i32, i32) = match self.cell(x, y) {
            Some(p) => p,
            None => {
                return Ok(Game::nothing());
            },
        };
        let first: bool = self.is_player_1_turn;
        let economy: PlayerEconomy = self.economy(first);
        if self.board.get(p.0, p.1).is_some() || economy.pawns < 1 || economy.spirits
            < card.get_cost() {
            return Ok(Game::nothing());
        }
        let spirits: i32 = match economy.spirits.checked_sub(card.get_cost()) {
            Some(v) => v,
            None => {
                return Err(Overflow);
            },
        };
        let entity: CardEntity = CardEntity::new(card, p.0, p.1, first);
        let shown: CardEntity = entity.clone();
        let mut mirrored: CardEntity = entity.clone();
        mirrored.set_x_pos(to_p2_x(p.0));
        mirrored.set_y_pos(to_p2_y(p.1));
        let _placed = self.board.place(entity);
        self.set_economy(first, PlayerEconomy { pawns: economy.pawns - 1, spirits });
        Ok(Game::both(ServerMessage::SpawnCard(shown), ServerMessage::SpawnCard(mirrored)))
    }

    /// Carries out `EndTurn` in an active game: the other player is told
    /// that its turn starts, the turn passes to it, and every entity on the
    /// board, of either player, is prepared for a new turn.
    pub fn end_turn(&mut self) -> (out: Vec<Outbound>)
        requires
            old(self).wf(),
        ensures
            final(self).wf(),
            final(self)@ == end_turn_step(old(self)@).state,
            outbound_view(out@) == end_turn_step(old(self)@).output,
    {
        if !self.is_active() {
            return Game::nothing();
        }
        let next: bool = !self.is_player_1_turn;
        self.board.reset_all();
        self.is_player_1_turn = next;
        let mut out: Vec<Outbound> = Vec::new();
        out.push(Outbound { to_player_1: next, message: ServerMessage::StartTurn });
        assert(outbound_view(out@) =~= end_turn_step(old(self)@).output);
        out
    }

    /// Carries out `WinGame`: if the claim is valid, the game is over, the
    /// player whose turn it is has won, and both players are told. An
    /// invalid claim changes nothing and sends nothing.
    pub fn win_game(&mut self, x: i32, y: i32) -> (out: Vec<Outbound>)
        requires
            old(self).wf(),
        ensures
            final(self).wf(),
            final(self)@ == win_step(old(self)@, x as int, y as int).state,
            outbound_view(out@) == win_step(old(self)@, x as int, y as int).output,
    {
        proof {
            self.board.lemma_positions_agree();
        }
        if !self.is_active() {
            return Game::nothing();
        }
        let p: (i32, i32) = match self.cell(x, y) {
            Some(p) => p,
            None => {
                return Game::nothing();
            },
        };
        let first: bool = self.is_player_1_turn;
        let holds: bool = match self.board.get(p.0, p.1) {
            Some(entity) => (p.1 == 0 || p.1 == BOARD_HEIGHT - 1) && entity.is_owned_by_p1()
                == first && entity.get_stun_count() == 0 && !entity.has_moved(),
            None => false,
        };
        if !holds {
            return Game::nothing();
        }
        self.phase = Phase::Finished { player_1_won: first };
        Game::both(ServerMessage::EndGame(first), ServerMessage::EndGame(!first))
    }

    /// The messages that go out when a player chats, whoever's turn it is,
    /// where `clean` is what the profanity filter made of the text: in an
    /// active game, none where the text is over the limit, else the sender's
    /// name, a colon, a space and the filtered text, to both players.
    pub fn chat_filtered(&self, from_player_1: bool, text: &str, clean: &str) -> (out: Vec<
        Outbound,
    >)
        ensures
            outbound_view(out@) == chat_step(self@, from_player_1, text@, clean@),
    {
        if !self.is_active() {
            return Game::nothing();
        }
        chat_outbound(self.username(from_player_1).as_str(), text, clean)
    }

    /// The messages that go out when a player chats, whoever's turn it is:
    /// in an active game, none where the text is over the limit, else the
    /// sender's name, a colon, a space and what the profanity filter makes
    /// of the text, to both players.
    pub fn chat(&self, from_player_1: bool, text: &str) -> (out: Vec<Outbound>)
        ensures
            outbound_view(out@) == chat_step(self@, from_player_1, text@, censored(text@)),
    {
        match filter_chat(text) {
            Some(clean) => self.chat_filtered(from_player_1, text, clean.as_str()),
            None => self.chat_filtered(from_player_1, text, ""),
        }
    }

    /// Handles one message of the player whose turn it is, where `clean`
    /// is what the profanity filter made of the text of a chat message (it
    /// is not used for any other message). In an active game that player is
    /// granted one spirit and the message is carried out; `PlayerInfo` and
    /// `Resign` do nothing more. In any other phase nothing happens. Where a
    /// counter cannot hold its new value, nothing changes and `Overflow`
    /// comes back.
    pub fn handle_filtered(&mut self, message: &ClientMessage, clean: &str) -> (res: Result<
        Vec<Outbound>,
        Overflow,
    >)
        requires
            old(self).wf(),
        ensures
            final(self).wf(),
            res is Ok <==> handle_in_range(old(self)@, message@),
            res is Ok ==> final(self)@ == handle_step(old(self)@, message@, clean@).state
                && outbound_view(res->Ok_0@) == handle_step(old(self)@, message@, clean@).output,
            res is Err ==> final(self)@ == old(self)@,
    {
        if !self.is_active() {
            return Ok(Game::nothing());
        }
        let first: bool = self.is_player_1_turn;
        let before: PlayerEconomy = self.economy(first);
        let spirits: i32 = match before.spirits.checked_add(1) {
            Some(v) => v,
            None => {
                return Err(Overflow);
            },
        };
        self.set_economy(first, PlayerEconomy { spirits, ..before });
        assert(self@ == old(self)@.granted());
        let res: Result<Vec<Outbound>, Overflow> = match message {
            ClientMessage::MoveTroop(sx, sy, ex, ey) => Ok(self.move_troop(*sx, *sy, *ex, *ey)),
            ClientMessage::AttackTroop(sx, sy, ex, ey) => self.attack_troop(*sx, *sy, *ex, *ey),
            ClientMessage::SpawnCard(card, x, y) => self.spawn_card(card, *x, *y),
            ClientMessage::EndTurn => Ok(self.end_turn()),
            ClientMessage::WinGame(x, y) => Ok(self.win_game(*x, *y)),
            ClientMessage::ChatMessage(text) => Ok(
                self.chat_filtered(first, text.as_str(), clean),
            ),
            ClientMessage::PlayerInfo(_, _) => Ok(Game::nothing()),
            ClientMessage::Resign => Ok(Game::nothing()),
        };
        if res.is_err() {
            self.set_economy(first, before);
            assert(self@ =~= old(self)@);
        }
        res
    }

    /// Handles one message of the player whose turn it is. In an active
    /// game that player is granted one spirit and the message is carried
    /// out, the text of a chat message going through the profanity filter;
    /// `PlayerInfo` and `Resign` do nothing more. In any other phase
    /// nothing happens. Where a counter cannot hold its new value, nothing
    /// changes and `Overflow` comes back.
    pub fn handle(&mut self, message: &ClientMessage) -> (res: Result<Vec<Outbound>, Overflow>)
        requires
            old(self).wf(),
        ensures
            final(self).wf(),
            res is Ok <==> handle_in_range(old(self)@, message@),
            res is Ok ==> final(self)@ == handle_step(
                old(self)@,
                message@,
                filtered_text(message@),
            ).state && outbound_view(res->Ok_0@) == handle_step(
                old(self)@,
                message@,
                filtered_text(message@),
            ).output,
            res is Err ==> final(self)@ == old(self)@,
    {
        let clean: String = match message {
            ClientMessage::ChatMessage(text) => match filter_chat(text.as_str()) {
                Some(clean) => clean,
                None => String::new(),
            },
            _ => String::new(),
        };
        proof {
            if clean@ != filtered_text(message@) {
                lemma_only_accepted_chat_is_filtered(
                    self@,
                    message@,
                    clean@,
                    filtered_text(message@),
                );
            }
        }
        self.handle_filtered(message, clean.as_str())
    }

    /// Handles one message of a player while the session waits for names
    /// and decks: the first `PlayerInfo` of that player is stored, and the
    /// one that completes the pair starts the game, which player 1 and then
    /// player 2 are told. Any other message is dropped.
    pub fn register(&mut self, from_player_1: bool, message: &ClientMessage) -> (out: Vec<
        Outbound,
    >)
        requires
            old(self).wf(),
        ensures
            final(self).wf(),
            final(self)@ == register_step(old(self)@, from_player_1, message@).state,
            outbound_view(out@) == register_step(old(self)@, from_player_1, message@).output,
    {
        let waiting: bool = match self.phase {
            Phase::AwaitingDecks => if from_player_1 {
                self.deck_1.is_none()
            } else {
                self.deck_2.is_none()
            },
            _ => false,
        };
        if !waiting {
            return Game::nothing();
        }
        match message {
            ClientMessage::PlayerInfo(username, deck) => {
                if from_player_1 {
                    self.username_1 = username.clone();
                    self.deck_1 = Some(copy_deck(deck));
                } else {
                    self.username_2 = username.clone();
                    self.deck_2 = Some(copy_deck(deck));
                }
                assert(self@ =~= old(self)@.with_player(
                    from_player_1,
                    username@,
                    deck_view(deck@),
                ));
                if self.deck_1.is_some() && self.deck_2.is_some() {
                    self.phase = Phase::Active;
                    let mut out: Vec<Outbound> = Vec::new();
                    out.push(Outbound { to_player_1: true, message: ServerMessage::StartGame(true) });
                    out.push(Outbound { to_player_1: true, message: ServerMessage::StartTurn });
                    out.push(
                        Outbound { to_player_1: false, message: ServerMessage::StartGame(false) },
                    );
                    assert(outbound_view(out@) =~= start_output());
                    out
                } else {
                    Game::nothing()
                }
            },
            _ => Game::nothing(),
        }
    }
}

/// A copy of a deck.
fn copy_deck(deck: &Vec<Card>) -> (res: Vec<Card>)
    ensures
        deck_view(res@) == deck_view(deck@),
{
    let mut res: Vec<Card> = Vec::new();
    let mut i: usize = 0;
    while i < deck.len()
        invariant
            i <= deck.len(),
            res@.len() == i,
            forall|k: int| 0 <= k < i ==> (#[trigger] res@[k])@ == deck@[k]@,
        decreases deck.len() - i,
    {
        res.push(deck[i].clone());
        i = i + 1;
    }
    assert(deck_view(res@) =~= deck_view(deck@));
    res
}

/// The messages that go out for a chat text from `username`, where `clean`
/// is what the profanity filter made of the text: none where the text is
/// over the limit, else the name, a colon, a space and the filtered text, to
/// both players.
pub fn chat_outbound(username: &str, text: &str, clean: &str) -> (out: Vec<Outbound>)
    ensures
        outbound_view(out@) == chat_output(username@, text@, clean@),
{
    match relay_line(username, text, clean) {
        Some(line) => {
            let copy: String = line.clone();
            Game::both(ServerMessage::ChatMessage(line), ServerMessage::ChatMessage(copy))
        },
        None => Game::nothing(),
    }
}

/// Takes every chat message out of a waiting player's queue and says what
/// goes out for each, oldest first; the other messages stay, in order. For
/// a text within the limit the sender's name, a colon, a space and what the
/// profanity filter makes of the text go to both players; a text over the
/// limit goes to nobody.
pub fn relay_waiting_chat(username: &str, queue: &mut VecDeque<ClientMessage>) -> (out: Vec<
    Outbound,
>)
    ensures
        queue_view(final(queue)@) == without_chat(queue_view(old(queue)@)),
        outbound_view(out@) == waiting_chat(
            username@,
            queue_view(old(queue)@),
            filtered_queue(queue_view(old(queue)@)),
        ),
{
    let ghost all = queue_view(queue@);
    let n: usize = queue.len();
    let mut kept: VecDeque<ClientMessage> = VecDeque::new();
    let mut out: Vec<Outbound> = Vec::new();
    let mut i: usize = 0;
    assert(all.take(0) =~= Seq::<ClientMessageView>::empty());
    assert(queue_view(kept@) =~= Seq::<ClientMessageView>::empty());
    assert(outbound_view(out@) =~= Seq::<OutboundView>::empty());
    proof {
        reveal(Seq::filter);
    }
    while i < n
        invariant
            i <= n,
            n == all.len(),
            queue_view(queue@) == all.skip(i as int),
            queue_view(kept@) == without_chat(all.take(i as int)),
            outbound_view(out@) == waiting_chat(
                username@,
                all.take(i as int),
                filtered_queue(all.take(i as int)),
            ),
        decreases n - i,
    {
        let ghost seen = all.take(i as int);
        let ghost next = all.take(i + 1);
        let ghost before = queue@;
        let ghost kept_before = kept@;
        let ghost out_before = out@;
        assert(queue_view(queue@).len() == n - i);
        match queue.pop_front() {
            Some(message) => {
                proof {
                    reveal(Seq::filter);
                    assert(next.drop_last() =~= seen);
                    assert(message@ == queue_view(before)[0]);
                    assert(next.last() == message@);
                    assert(filtered_queue(next).drop_last() =~= filtered_queue(seen));
                    assert(filtered_queue(next).last() == filtered_text(message@));
                    assert forall|k: int| 0 <= k < queue@.len() implies queue_view(queue@)[k]
                        == all.skip(i + 1)[k] by {
                        assert(queue@[k] == before[k + 1]);
                        assert(queue_view(before)[k + 1] == all.skip(i as int)[k + 1]);
                    }
                    assert(queue_view(queue@) =~= all.skip(i + 1));
                }
                match message {
                    ClientMessage::ChatMessage(text) => {
                        let clean: String = match filter_chat(text.as_str()) {
                            Some(clean) => clean,
                            None => String::new(),
                        };
                        let mut relayed: Vec<Outbound> = chat_outbound(
                            username,
                            text.as_str(),
                            clean.as_str(),
                        );
                        let ghost added = relayed@;
                        out.append(&mut relayed);
                        proof {
                            assert(outbound_view(added) == chat_output(
                                username@,
                                text@,
                                censored(text@),
                            ));
                            assert(outbound_view(out@) =~= outbound_view(out_before)
                                + outbound_view(added));
                        }
                    },
                    other => {
                        kept.push_back(other);
                        proof {
                            assert(queue_view(kept@) =~= queue_view(kept_before).push(other@));
                            assert(outbound_view(out@) + Seq::<OutboundView>::empty()
                                =~= outbound_view(out@));
                        }
                    },
                }
            },
            None => {},
        }
        i = i + 1;
    }
    assert(all.take(n as int) =~= all);
    assert(queue@ =~= Seq::<ClientMessage>::empty());
    let ghost kept_all = kept@;
    queue.append(&mut kept);
    assert(queue@ =~= kept_all);
    out
}

impl Game {
    /// Serves one player's queue while the session waits for names and
    /// decks.
    fn serve_lobby(&mut self, from_player_1: bool, queue: &mut VecDeque<ClientMessage>) -> (out:
        Vec<Outbound>)
        requires
            old(self).wf(),
        ensures
            final(self).wf(),
            final(self)@ == lobby_turn(
                old(self)@,
                from_player_1,
                queue_view(old(queue)@),
            ).state,
            queue_view(final(queue)@) == lobby_turn(
                old(self)@,
                from_player_1,
                queue_view(old(queue)@),
            ).queue,
            outbound_view(out@) == lobby_turn(
                old(self)@,
                from_player_1,
                queue_view(old(queue)@),
            ).output,
    {
        let awaited: bool = match self.phase {
            Phase::AwaitingDecks => if from_player_1 {
                self.deck_1.is_none()
            } else {
                self.deck_2.is_none()
            },
            _ => false,
        };
        if !awaited {
            return Game::nothing();
        }
        match queue.pop_front() {
            Some(message) => {
                assert(queue_view(queue@) =~= queue_view(old(queue)@).skip(1));
                self.register(from_player_1, &message)
            },
            None => Game::nothing(),
        }
    }

    /// Plays one round of an active game, given the queue of the player
    /// whose turn it is and that of the waiting player.
    fn play_round(
        &mut self,
        active: &mut VecDeque<ClientMessage>,
        waiting: &mut VecDeque<ClientMessage>,
    ) -> (res: Result<Vec<Outbound>, Overflow>)
        requires
            old(self).wf(),
        ensures
            final(self).wf(),
            res is Ok <==> play_in_range(old(self)@, queue_view(old(active)@)),
            res is Ok ==> {
                let played = play(
                    old(self)@,
                    queue_view(old(active)@),
                    queue_view(old(waiting)@),
                    play_filtered(queue_view(old(active)@), queue_view(old(waiting)@)),
                );
                &&& final(self)@ == played.state
                &&& queue_view(final(active)@) == played.queue_1
                &&& queue_view(final(waiting)@) == played.queue_2
                &&& outbound_view(res->Ok_0@) == played.output
            },
            res is Err ==> final(self)@ == old(self)@ && final(active)@ == old(active)@
                && final(waiting)@ == old(waiting)@,
    {
        let name: String = self.username(!self.is_player_1_turn).clone();
        let mut handled: Vec<Outbound> = if active.len() > 0 {
            match self.handle(&active[0]) {
                Ok(out) => {
                    let _taken = active.pop_front();
                    assert(queue_view(active@) =~= queue_view(old(active)@).skip(1));
                    out
                },
                Err(e) => {
                    return Err(e);
                },
            }
        } else {
            Game::nothing()
        };
        let mut out: Vec<Outbound> = relay_waiting_chat(name.as_str(), waiting);
        let ghost relayed = out@;
        let ghost answered = handled@;
        out.append(&mut handled);
        assert(outbound_view(out@) =~= outbound_view(relayed) + outbound_view(answered));
        Ok(out)
    }

    /// Runs the session by one round, on the two players' inbound queues,
    /// and says which messages to send, in order.
    ///
    /// While names and decks are awaited, the oldest message of each player
    /// whose deck is missing is taken and registered, player 1's first. In
    /// an active game every chat message of the waiting player is taken out
    /// and relayed, and the oldest message of the player whose turn it is,
    /// if there is one, is taken and handled. A finished game does nothing.
    /// Where a counter cannot hold its new value, nothing changes, the
    /// queues included, and `Overflow` comes back.
    ///
    /// Chat texts go through the profanity filter on the way: the round is
    /// the one that the rules give for what the filter makes of each text.
    pub fn run(
        &mut self,
        queue_1: &mut VecDeque<ClientMessage>,
        queue_2: &mut VecDeque<ClientMessage>,
    ) -> (res: Result<Vec<Outbound>, Overflow>)
        requires
            old(self).wf(),
        ensures
            final(self).wf(),
            res is Ok <==> round_in_range(
                old(self)@,
                queue_view(old(queue_1)@),
                queue_view(old(queue_2)@),
            ),
            res is Ok ==> {
                let after = round(
                    old(self)@,
                    queue_view(old(queue_1)@),
                    queue_view(old(queue_2)@),
                    round_filtered(
                        old(self)@,
                        queue_view(old(queue_1)@),
                        queue_view(old(queue_2)@),
                    ),
                );
                &&& final(self)@ == after.state
                &&& queue_view(final(queue_1)@) == after.queue_1
                &&& queue_view(final(queue_2)@) == after.queue_2
                &&& outbound_view(res->Ok_0@) == after.output
            },
            res is Err ==> final(self)@ == old(self)@ && final(queue_1)@ == old(queue_1)@
                && final(queue_2)@ == old(queue_2)@,
    {
        match self.phase {
            Phase::AwaitingDecks => {
                let mut out: Vec<Outbound> = self.serve_lobby(true, queue_1);
                let mut second: Vec<Outbound> = self.serve_lobby(false, queue_2);
                let ghost a = out@;
                let ghost b = second@;
                out.append(&mut second);
                assert(outbound_view(out@) =~= outbound_view(a) + outbound_view(b));
                Ok(out)
            },
            Phase::Active => {
                if self.is_player_1_turn {
                    self.play_round(queue_1, queue_2)
                } else {
                    self.play_round(queue_2, queue_1)
                }
            },
            Phase::Finished { .. } => Ok(Game::nothing()),
        }
    }
}

} // verus!
