//! What holds of every session: the board invariant, and what illegal
//! moves, kills, the end of a turn, a claimed win and chat do.

use crate::board::{in_bounds, mirror_x, mirror_y};
use crate::card::{kill_reward, rest_all, spawned, stun_total, CardView};
use crate::chat::{chat_accepted, chat_separator, CHAT_LIMIT};
use crate::messages::{ClientMessageView, OutboundView, ServerMessageView};
use crate::rules::{
    action_step, attack_step, attack_valid, chat_step, end_turn_step, handle_step, initial,
    lobby_turn, message_chat, move_step, move_valid, register_step, round, spawn_step,
    spawn_valid, spent, struck, to_both, unchanged, win_step,
};
use crate::rules::{Filtered, GameView, Phase};
use vstd::prelude::*;

verus! {

// ---------------------------------------------------------------------------
// The board invariant
// ---------------------------------------------------------------------------

/// A new session satisfies the board invariant.
pub proof fn lemma_initial_wf()
    ensures
        initial().wf(),
{
}

/// No message breaks the board invariant, whether it is carried out by
/// itself or handled as a message of the player whose turn it is, and
/// whatever the profanity filter made of a chat text: after it, still every
/// occupied cell is a cell of the board and holds an entity whose stored
/// position is that cell.
pub proof fn lemma_handle_keeps_board_invariant(
    g: GameView,
    message: ClientMessageView,
    clean: Seq<char>,
)
    requires
        g.wf(),
    ensures
        action_step(g, message, clean).state.wf(),
        handle_step(g, message, clean).state.wf(),
{
    lemma_action_keeps_board_invariant(g, message, clean);
    if g.phase is Active {
        assert(g.granted().board == g.board);
        lemma_action_keeps_board_invariant(g.granted(), message, clean);
    }
}

proof fn lemma_action_keeps_board_invariant(
    g: GameView,
    message: ClientMessageView,
    clean: Seq<char>,
)
    requires
        g.wf(),
    ensures
        action_step(g, message, clean).state.wf(),
{
    {
        let h = g;
        match message {
            ClientMessageView::MoveTroop(sx, sy, ex, ey) => {
                let s = h.cell(sx, sy);
                let e = h.cell(ex, ey);
                if move_valid(h, sx, sy, ex, ey) {
                    assert(h.board.dom().contains(s));
                }
            },
            ClientMessageView::AttackTroop(sx, sy, ex, ey) => {
                let s = h.cell(sx, sy);
                let e = h.cell(ex, ey);
                if attack_valid(h, sx, sy, ex, ey) {
                    assert(h.board.dom().contains(s));
                    assert(h.board.dom().contains(e));
                }
            },
            ClientMessageView::SpawnCard(card, x, y) => {},
            ClientMessageView::EndTurn => {
                let after = end_turn_step(h).state.board;
                assert forall|p: (int, int)| #[trigger] after.dom().contains(p) implies in_bounds(
                    p.0,
                    p.1,
                ) && after[p].position_x == p.0 && after[p].position_y == p.1 by {
                    assert(h.board.dom().contains(p));
                }
            },
            ClientMessageView::WinGame(x, y) => {},
            ClientMessageView::ChatMessage(text) => {},
            ClientMessageView::PlayerInfo(_, _) => {},
            ClientMessageView::Resign => {},
        }
    }
}

/// Registering a player's name and deck leaves the board as it is.
pub proof fn lemma_register_keeps_board(
    g: GameView,
    from_player_1: bool,
    message: ClientMessageView,
)
    ensures
        register_step(g, from_player_1, message).state.board == g.board,
{
}

/// No round of the session loop breaks the board invariant, whatever the
/// queues hold and whatever the profanity filter made of the chat texts.
pub proof fn lemma_round_keeps_board_invariant(
    g: GameView,
    queue_1: Seq<ClientMessageView>,
    queue_2: Seq<ClientMessageView>,
    filtered: Filtered,
)
    requires
        g.wf(),
    ensures
        round(g, queue_1, queue_2, filtered).state.wf(),
{
    match g.phase {
        Phase::AwaitingDecks => {
            let first = lobby_turn(g, true, queue_1);
            if queue_1.len() > 0 {
                lemma_register_keeps_board(g, true, queue_1[0]);
            }
            if queue_2.len() > 0 {
                lemma_register_keeps_board(first.state, false, queue_2[0]);
            }
        },
        Phase::Active => {
            if g.player_1_turn {
                if queue_1.len() > 0 {
                    lemma_handle_keeps_board_invariant(g, queue_1[0], filtered.active);
                }
            } else {
                if queue_2.len() > 0 {
                    lemma_handle_keeps_board_invariant(g, queue_2[0], filtered.active);
                }
            }
        },
        Phase::Finished { .. } => {},
    }
}

/// What the session loop is fed in one round: the two inbound queues as the
/// round finds them, and what the profanity filter makes of the chat texts.
pub struct Fed {
    pub queue_1: Seq<ClientMessageView>,
    pub queue_2: Seq<ClientMessageView>,
    pub filtered: Filtered,
}

/// The session after a new session ran through the given rounds.
pub open spec fn state_after(rounds: Seq<Fed>) -> GameView
    decreases rounds.len(),
{
    if rounds.len() == 0 {
        initial()
    } else {
        round(
            state_after(rounds.drop_last()),
            rounds.last().queue_1,
            rounds.last().queue_2,
            rounds.last().filtered,
        ).state
    }
}

/// Every state that a session reaches satisfies the board invariant: every
/// occupied cell holds an entity whose stored position is that cell, and,
/// the board being a map from cells to entities, no cell holds two.
pub proof fn lemma_reachable_states_keep_board_invariant(rounds: Seq<Fed>)
    ensures
        state_after(rounds).wf(),
    decreases rounds.len(),
{
    if rounds.len() > 0 {
        lemma_reachable_states_keep_board_invariant(rounds.drop_last());
        lemma_round_keeps_board_invariant(
            state_after(rounds.drop_last()),
            rounds.last().queue_1,
            rounds.last().queue_2,
            rounds.last().filtered,
        );
    }
}

// ---------------------------------------------------------------------------
// Moves
// ---------------------------------------------------------------------------

/// A move into an occupied cell, from an empty cell, of an entity of the
/// other player, or of an entity that has moved, has attacked or is stunned,
/// does nothing: the session stays as it is and nothing is sent. Handled as
/// a message of the player whose turn it is, it leaves the board as it is
/// and sends nothing.
pub proof fn lemma_illegal_move_does_nothing(g: GameView, sx: int, sy: int, ex: int, ey: int)
    requires
        ({
            let s = g.cell(sx, sy);
            let e = g.cell(ex, ey);
            ||| g.board.dom().contains(e)
            ||| !g.board.dom().contains(s)
            ||| g.board[s].owned_by_p1 != g.player_1_turn
            ||| g.board[s].has_moved
            ||| g.board[s].has_attacked
            ||| g.board[s].stun_count != 0
        }),
    ensures
        move_step(g, sx, sy, ex, ey) == unchanged(g),
        forall|clean: Seq<char>|
            (#[trigger] handle_step(
                g,
                ClientMessageView::MoveTroop(sx, sy, ex, ey),
                clean,
            )).state.board == g.board,
        forall|clean: Seq<char>|
            (#[trigger] handle_step(g, ClientMessageView::MoveTroop(sx, sy, ex, ey), clean)).output
                == Seq::<OutboundView>::empty(),
{
    let h = g.granted();
    assert(h.board == g.board);
    assert(h.cell(sx, sy) == g.cell(sx, sy));
    assert(h.cell(ex, ey) == g.cell(ex, ey));
}

// ---------------------------------------------------------------------------
// Spawns
// ---------------------------------------------------------------------------

/// A valid spawn costs the player whose turn it is one pawn and the card's
/// cost in spirits and leaves the other player's economy alone; the new
/// entity is that player's, stands in the cell that the player named, at
/// full health, and player 2 is shown it at the mirrored cell.
pub proof fn lemma_spawn_economics(g: GameView, card: CardView, x: int, y: int)
    requires
        spawn_valid(g, card, x, y),
    ensures
        ({
            let p = g.cell(x, y);
            let step = spawn_step(g, card, x, y);
            let mine = g.player_1_turn;
            &&& step.state.economy(mine).pawns == g.economy(mine).pawns - 1
            &&& step.state.economy(mine).spirits == g.economy(mine).spirits - card.cost
            &&& step.state.economy(!mine) == g.economy(!mine)
            &&& step.state.board[p] == spawned(card, p.0, p.1, mine)
            &&& step.output.len() == 2
            &&& step.output[0].to_player_1 && !step.output[1].to_player_1
            &&& step.output[0].message == ServerMessageView::SpawnCard(spawned(card, p.0, p.1, mine))
            &&& step.output[1].message == ServerMessageView::SpawnCard(
                spawned(card, mirror_x(p.0), mirror_y(p.1), mine),
            )
        }),
{
}

// ---------------------------------------------------------------------------
// The spirit granted for each message
// ---------------------------------------------------------------------------

/// In an active game every message taken from the queue of the player
/// whose turn it is earns that player exactly one spirit, before the
/// message is carried out. For a message that itself leaves the economies
/// alone (a move, the end of the turn, a claimed win, chat, `PlayerInfo`,
/// `Resign`) that is the whole change to the economies.
pub proof fn lemma_one_spirit_per_message(g: GameView, message: ClientMessageView, clean: Seq<char>)
    requires
        g.phase is Active,
    ensures
        handle_step(g, message, clean) == action_step(g.granted(), message, clean),
        g.granted().economy(g.player_1_turn).spirits == g.economy(g.player_1_turn).spirits + 1,
        g.granted().economy(g.player_1_turn).pawns == g.economy(g.player_1_turn).pawns,
        g.granted().economy(!g.player_1_turn) == g.economy(!g.player_1_turn),
        !(message is AttackTroop) && !(message is SpawnCard) ==> {
            let after = handle_step(g, message, clean).state;
            &&& after.economy_1 == g.granted().economy_1
            &&& after.economy_2 == g.granted().economy_2
        },
{
}

// ---------------------------------------------------------------------------
// Attacks
// ---------------------------------------------------------------------------

/// After a valid attack that the target survives, both entities stand
/// where they stood: the target with the attacker's stun added and its
/// damage taken off, the attacker counted as moved and with the attack
/// counted against its budget. The economies stay as they are, and both
/// players are told of the attack.
pub proof fn lemma_survived_attack(g: GameView, sx: int, sy: int, ex: int, ey: int)
    requires
        attack_valid(g, sx, sy, ex, ey),
        !struck(g.board[g.cell(sx, sy)], g.board[g.cell(ex, ey)]).is_dead(),
    ensures
        ({
            let s = g.cell(sx, sy);
            let e = g.cell(ex, ey);
            let step = attack_step(g, sx, sy, ex, ey);
            &&& step.state.board.dom() == g.board.dom()
            &&& step.state.board[s] == spent(g.board[s])
            &&& step.state.board[e].stun_count == g.board[e].stun_count + stun_total(
                g.board[s].card.abilities,
            )
            &&& step.state.board[e].current_hp == g.board[e].current_hp - g.board[s].card.attack
            &&& step.state.economy_1 == g.economy_1
            &&& step.state.economy_2 == g.economy_2
            &&& step.output.len() == 2
        }),
{
    let s = g.cell(sx, sy);
    let e = g.cell(ex, ey);
    assert(s != e);
    assert(attack_step(g, sx, sy, ex, ey).state.board.dom() =~= g.board.dom());
}

// ---------------------------------------------------------------------------
// Kills
// ---------------------------------------------------------------------------

/// A valid attack that uses up the target's health pays the attacker's
/// owner the target's full cost with `SpiritCollector` and half of it,
/// rounded down, without; the target's owner gets one pawn back; the
/// attacker's pawns and the target's owner's spirits stay as they are. The
/// target is gone and the attacker stands in its cell.
pub proof fn lemma_kill_economics(g: GameView, sx: int, sy: int, ex: int, ey: int)
    requires
        attack_valid(g, sx, sy, ex, ey),
        struck(g.board[g.cell(sx, sy)], g.board[g.cell(ex, ey)]).is_dead(),
    ensures
        ({
            let s = g.cell(sx, sy);
            let e = g.cell(ex, ey);
            let after = attack_step(g, sx, sy, ex, ey).state;
            let mine = g.player_1_turn;
            &&& after.economy(mine).spirits == g.economy(mine).spirits + kill_reward(
                g.board[s].card.abilities,
                g.board[e].card.cost,
            )
            &&& after.economy(mine).pawns == g.economy(mine).pawns
            &&& after.economy(!mine).pawns == g.economy(!mine).pawns + 1
            &&& after.economy(!mine).spirits == g.economy(!mine).spirits
            &&& !after.board.dom().contains(s)
            &&& after.board[e] == spent(g.board[s]).relocated(e.0, e.1)
        }),
{
    let s = g.cell(sx, sy);
    let e = g.cell(ex, ey);
    assert(s != e);
}

// ---------------------------------------------------------------------------
// The end of a turn
// ---------------------------------------------------------------------------

/// After `EndTurn` in an active game the same cells are occupied, and every
/// entity, of either player, may move and attack again, has its stun counter
/// lowered by exactly one unless it was 0 or less, and has every
/// `MultiAttack` counter back at 0. The turn has passed to the other player.
pub proof fn lemma_end_turn_resets(g: GameView)
    requires
        g.phase is Active,
    ensures
        ({
            let after = end_turn_step(g).state;
            &&& after.player_1_turn == !g.player_1_turn
            &&& after.board.dom() == g.board.dom()
            &&& forall|p: (int, int)| #[trigger]
                g.board.dom().contains(p) ==> {
                    &&& !after.board[p].has_moved
                    &&& !after.board[p].has_attacked
                    &&& g.board[p].stun_count > 0 ==> after.board[p].stun_count
                        == g.board[p].stun_count - 1
                    &&& g.board[p].stun_count <= 0 ==> after.board[p].stun_count
                        == g.board[p].stun_count
                    &&& after.board[p].card.abilities == rest_all(g.board[p].card.abilities)
                    &&& after.board[p].owned_by_p1 == g.board[p].owned_by_p1
                    &&& after.board[p].current_hp == g.board[p].current_hp
                }
        }),
{
}

/// `EndTurn`, handled as a message of the player whose turn it is, resets
/// the board as `lemma_end_turn_resets` says.
pub proof fn lemma_handled_end_turn(g: GameView)
    requires
        g.phase is Active,
    ensures
        forall|clean: Seq<char>|
            (#[trigger] handle_step(g, ClientMessageView::EndTurn, clean)).state.board
                == end_turn_step(g).state.board,
        forall|clean: Seq<char>|
            (#[trigger] handle_step(g, ClientMessageView::EndTurn, clean)).state.player_1_turn
                == !g.player_1_turn,
{
    let h = g.granted();
    assert(h.board == g.board);
}

// ---------------------------------------------------------------------------
// A claimed win
// ---------------------------------------------------------------------------

/// `WinGame` ends the game only where, in an active game, the cell is in
/// the first or the last row and holds an entity of the player whose turn
/// it is that is not stunned and has not moved this turn; then that player
/// has won, and is told so, and the other player is told that it has lost.
/// In every other case the claim does nothing.
pub proof fn lemma_win_only_when_held(g: GameView, x: int, y: int)
    ensures
        ({
            let p = g.cell(x, y);
            let held = {
                &&& g.phase is Active
                &&& g.board.dom().contains(p)
                &&& (p.1 == 0 || p.1 == 8)
                &&& g.board[p].owned_by_p1 == g.player_1_turn
                &&& g.board[p].stun_count == 0
                &&& !g.board[p].has_moved
            };
            &&& held ==> win_step(g, x, y).state == (GameView {
                phase: Phase::Finished { player_1_won: g.player_1_turn },
                ..g
            })
            &&& held ==> win_step(g, x, y).output == to_both(
                ServerMessageView::EndGame(g.player_1_turn),
                ServerMessageView::EndGame(!g.player_1_turn),
            )
            &&& !held ==> win_step(g, x, y) == unchanged(g)
        }),
{
}

// ---------------------------------------------------------------------------
// Chat
// ---------------------------------------------------------------------------

/// A text takes at least as many bytes as it has characters.
pub proof fn lemma_bytes_cover_chars(text: Seq<char>)
    ensures
        vstd::utf8::encode_utf8(text).len() >= text.len(),
    decreases text.len(),
{
    if text.len() > 0 {
        lemma_bytes_cover_chars(text.drop_first());
    }
}

/// In an active game, chat from either player, whoever's turn it is, and
/// whatever the profanity filter made of the text: a text of more than 30
/// characters is relayed to nobody; a text within the limit goes to both
/// players, first to player 1, as one line that starts with the sender's
/// name, a colon and a space and goes on with the filtered text.
pub proof fn lemma_chat_relay(g: GameView, from_player_1: bool, text: Seq<char>, clean: Seq<char>)
    requires
        g.phase is Active,
    ensures
        text.len() > CHAT_LIMIT ==> chat_step(g, from_player_1, text, clean)
            == Seq::<OutboundView>::empty(),
        !chat_accepted(text) ==> chat_step(g, from_player_1, text, clean)
            == Seq::<OutboundView>::empty(),
        chat_accepted(text) ==> {
            let name = g.username(from_player_1);
            let line = name + chat_separator() + clean;
            &&& chat_step(g, from_player_1, text, clean) == to_both(
                ServerMessageView::ChatMessage(line),
                ServerMessageView::ChatMessage(line),
            )
            &&& line.subrange(0, name.len() as int + 2) == name + chat_separator()
        },
{
    lemma_bytes_cover_chars(text);
    let name = g.username(from_player_1);
    let line = name + chat_separator() + clean;
    assert(line.subrange(0, name.len() as int + 2) =~= name + chat_separator());
}

/// Chat reaches the session from the player whose turn it is as a handled
/// message, and from the waiting player out of its queue; either way what
/// goes out is what `lemma_chat_relay` describes, under the sender's name.
pub proof fn lemma_chat_either_way(g: GameView, text: Seq<char>, clean: Seq<char>)
    requires
        g.phase is Active,
    ensures
        handle_step(g, ClientMessageView::ChatMessage(text), clean).output == chat_step(
            g,
            g.player_1_turn,
            text,
            clean,
        ),
        message_chat(g.username(!g.player_1_turn), ClientMessageView::ChatMessage(text), clean)
            == chat_step(g, !g.player_1_turn, text, clean),
{
}

} // verus!
