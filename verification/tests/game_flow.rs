use duels_server::card::{Card, CardAbility, CardEntity, CardType, Overflow};
use duels_server::game::{chat_outbound, relay_waiting_chat, Game, PlayerEconomy};
use duels_server::messages::{ClientMessage, Outbound, ServerMessage};
use duels_server::rules::Phase;
use std::collections::VecDeque;

fn skeleton() -> Card {
    Card::new("skeleton", CardType::Troop, 5, 3, 2, vec![])
}

fn reaper() -> Card {
    Card::new("reaper", CardType::Troop, 6, 4, 5, vec![CardAbility::SpiritCollector])
}

fn kraken() -> Card {
    Card::new(
        "kraken",
        CardType::Troop,
        12,
        1,
        5,
        vec![CardAbility::MultiAttack { max_attacks: 2, attack_count: 0 }],
    )
}

fn spider() -> Card {
    Card::new("spider", CardType::Troop, 4, 2, 4, vec![CardAbility::Stun { amount: 2 }])
}

fn brute() -> Card {
    Card::new("brute", CardType::Troop, 6, 4, 5, vec![])
}

fn deck() -> Vec<Card> {
    vec![skeleton(), reaper(), kraken(), spider()]
}

fn to_1(message: ServerMessage) -> Outbound {
    Outbound { to_player_1: true, message }
}

fn to_2(message: ServerMessage) -> Outbound {
    Outbound { to_player_1: false, message }
}

/// An active game between "A" and "B", player 1 to move.
fn started() -> Game {
    let mut game = Game::new();
    assert!(game.register(true, &ClientMessage::PlayerInfo("A".to_string(), deck())).is_empty());
    let out = game.register(false, &ClientMessage::PlayerInfo("B".to_string(), deck()));
    assert_eq!(out.len(), 3);
    game
}

fn economy(pawns: i32, spirits: i32) -> PlayerEconomy {
    PlayerEconomy { pawns, spirits }
}

fn entity<'a>(game: &'a Game, x: i32, y: i32) -> &'a CardEntity {
    game.entity_at(x, y).unwrap()
}

#[test]
fn new_game_awaits_decks() {
    let game = Game::new();
    assert_eq!(game.phase(), Phase::AwaitingDecks);
    assert!(!game.is_active());
    assert!(!game.is_finished());
    assert!(game.is_player_1_turn());
    assert_eq!(game.economy(true), economy(6, 8));
    assert_eq!(game.economy(false), economy(6, 8));
    assert_eq!(game.username(true), "");
    assert_eq!(game.username(false), "");
    for y in 0..9 {
        for x in 0..5 {
            assert!(game.entity_at(x, y).is_none());
        }
    }
    assert!(game.entity_at(5, 0).is_none());
    assert!(game.entity_at(0, 9).is_none());
    assert!(game.entity_at(-1, 0).is_none());
}

#[test]
fn second_player_info_starts_the_game() {
    let mut game = Game::new();
    let out = game.register(true, &ClientMessage::PlayerInfo("A".to_string(), deck()));
    assert!(out.is_empty());
    assert_eq!(game.phase(), Phase::AwaitingDecks);
    assert_eq!(game.username(true), "A");
    let out = game.register(false, &ClientMessage::PlayerInfo("B".to_string(), deck()));
    assert_eq!(
        out,
        vec![
            to_1(ServerMessage::StartGame(true)),
            to_1(ServerMessage::StartTurn),
            to_2(ServerMessage::StartGame(false)),
        ]
    );
    assert_eq!(game.phase(), Phase::Active);
    assert_eq!(game.username(false), "B");
    assert!(game.is_player_1_turn());
    assert_eq!(game.deck(true), Some(&deck()));
    assert_eq!(game.deck(false), Some(&deck()));
    assert_eq!(Game::new().deck(true), None);
}

#[test]
fn player_info_may_arrive_in_either_order() {
    let mut game = Game::new();
    assert!(game.register(false, &ClientMessage::PlayerInfo("B".to_string(), deck())).is_empty());
    assert_eq!(game.phase(), Phase::AwaitingDecks);
    let out = game.register(true, &ClientMessage::PlayerInfo("A".to_string(), deck()));
    assert_eq!(
        out,
        vec![
            to_1(ServerMessage::StartGame(true)),
            to_1(ServerMessage::StartTurn),
            to_2(ServerMessage::StartGame(false)),
        ]
    );
    assert_eq!(game.username(true), "A");
    assert_eq!(game.username(false), "B");
    assert!(game.is_player_1_turn());
}

#[test]
fn lobby_drops_everything_but_the_first_player_info() {
    let mut game = Game::new();
    assert!(game.register(true, &ClientMessage::EndTurn).is_empty());
    assert!(game.register(true, &ClientMessage::ChatMessage("hi".to_string())).is_empty());
    assert!(game.register(true, &ClientMessage::SpawnCard(skeleton(), 0, 0)).is_empty());
    assert_eq!(game.phase(), Phase::AwaitingDecks);
    assert!(game.register(true, &ClientMessage::PlayerInfo("A".to_string(), deck())).is_empty());
    assert!(game.register(true, &ClientMessage::PlayerInfo("Z".to_string(), deck())).is_empty());
    assert_eq!(game.username(true), "A");
    assert_eq!(game.phase(), Phase::AwaitingDecks);
    assert!(game.entity_at(0, 0).is_none());
}

#[test]
fn actions_before_the_game_do_nothing() {
    let mut game = Game::new();
    assert_eq!(game.spawn_card(&skeleton(), 0, 0), Ok(vec![]));
    assert!(game.entity_at(0, 0).is_none());
    assert_eq!(game.economy(true), economy(6, 8));
    assert!(game.end_turn().is_empty());
    assert!(game.is_player_1_turn());
    assert!(game.chat(true, "hello").is_empty());
    assert_eq!(game.handle(&ClientMessage::EndTurn), Ok(vec![]));
    assert_eq!(game.economy(true), economy(6, 8));
    assert_eq!(game, Game::new());
}

#[test]
fn end_to_end_spawn_scenario() {
    let mut game = Game::new();
    let mut queue_1: VecDeque<ClientMessage> = VecDeque::new();
    let mut queue_2: VecDeque<ClientMessage> = VecDeque::new();
    queue_1.push_back(ClientMessage::PlayerInfo("A".to_string(), deck()));
    queue_2.push_back(ClientMessage::PlayerInfo("B".to_string(), deck()));
    let out = game.run(&mut queue_1, &mut queue_2).unwrap();
    assert_eq!(
        out,
        vec![
            to_1(ServerMessage::StartGame(true)),
            to_1(ServerMessage::StartTurn),
            to_2(ServerMessage::StartGame(false)),
        ]
    );
    assert!(queue_1.is_empty());
    assert!(queue_2.is_empty());
    assert_eq!(game.economy(true), economy(6, 8));

    // The spawn by itself costs one pawn and the card's two spirits.
    let mut alone = started();
    let sent = alone.spawn_card(&skeleton(), 2, 8).unwrap();
    assert_eq!(alone.economy(true), economy(5, 6));
    assert_eq!(alone.economy(false), economy(6, 8));

    // Taken from the queue, it also earns the spirit granted per message.
    queue_1.push_back(ClientMessage::SpawnCard(skeleton(), 2, 8));
    let out = game.run(&mut queue_1, &mut queue_2).unwrap();
    assert_eq!(out, sent);
    assert_eq!(
        out,
        vec![
            to_1(ServerMessage::SpawnCard(CardEntity::new(&skeleton(), 2, 8, true))),
            to_2(ServerMessage::SpawnCard(CardEntity::new(&skeleton(), 2, 0, true))),
        ]
    );
    assert_eq!(game.economy(true), economy(5, 7));
    assert_eq!(game.economy(false), economy(6, 8));
    assert_eq!(entity(&game, 2, 8), &CardEntity::new(&skeleton(), 2, 8, true));
    assert!(queue_1.is_empty());
}

#[test]
fn every_handled_message_grants_one_spirit() {
    let mut game = started();
    assert_eq!(game.handle(&ClientMessage::Resign), Ok(vec![]));
    assert_eq!(game.economy(true), economy(6, 9));
    assert_eq!(game.handle(&ClientMessage::MoveTroop(0, 0, 0, 1)), Ok(vec![]));
    assert_eq!(game.economy(true), economy(6, 10));
    assert_eq!(game.handle(&ClientMessage::PlayerInfo("X".to_string(), vec![])), Ok(vec![]));
    assert_eq!(game.economy(true), economy(6, 11));
    assert_eq!(game.username(true), "A");
    assert_eq!(game.economy(false), economy(6, 8));
    assert!(game.is_player_1_turn());
    assert_eq!(game.phase(), Phase::Active);
}

#[test]
fn the_granted_spirit_counts_towards_the_cost() {
    let mut game = started();
    let dear = Card::new("dear", CardType::Troop, 1, 1, 9, vec![]);
    assert_eq!(game.spawn_card(&dear, 0, 0), Ok(vec![]));
    assert_eq!(game.economy(true), economy(6, 8));
    let out = game.handle(&ClientMessage::SpawnCard(dear, 0, 0)).unwrap();
    assert_eq!(out.len(), 2);
    assert_eq!(game.economy(true), economy(5, 0));
}

#[test]
fn grant_beyond_the_counter_is_refused() {
    let mut game = started();
    let gift = Card::new("gift", CardType::Troop, 1, 1, 8 - i32::MAX, vec![]);
    assert_eq!(game.spawn_card(&gift, 0, 0).map(|out| out.len()), Ok(2));
    assert_eq!(game.economy(true), economy(5, i32::MAX));
    let before = game.economy(true);
    assert_eq!(game.handle(&ClientMessage::EndTurn), Err(Overflow));
    assert_eq!(game.economy(true), before);
    assert!(game.is_player_1_turn());
    let mut queue_1: VecDeque<ClientMessage> = VecDeque::new();
    let mut queue_2: VecDeque<ClientMessage> = VecDeque::new();
    queue_1.push_back(ClientMessage::EndTurn);
    queue_2.push_back(ClientMessage::ChatMessage("hi".to_string()));
    assert_eq!(game.run(&mut queue_1, &mut queue_2), Err(Overflow));
    assert_eq!(queue_1.len(), 1);
    assert_eq!(queue_2.len(), 1);
    assert!(game.is_player_1_turn());
}

#[test]
fn spawn_puts_the_card_on_the_board() {
    let mut game = started();
    let out = game.spawn_card(&spider(), 4, 0).unwrap();
    let expected = CardEntity::new(&spider(), 4, 0, true);
    assert_eq!(
        out,
        vec![
            to_1(ServerMessage::SpawnCard(CardEntity::new(&spider(), 4, 0, true))),
            to_2(ServerMessage::SpawnCard(CardEntity::new(&spider(), 0, 8, true))),
        ]
    );
    assert_eq!(entity(&game, 4, 0), &expected);
    assert_eq!(game.economy(true), economy(5, 4));
}

#[test]
fn second_player_spawns_in_its_own_orientation() {
    let mut game = started();
    game.end_turn();
    let out = game.spawn_card(&skeleton(), 1, 2).unwrap();
    assert_eq!(
        out,
        vec![
            to_1(ServerMessage::SpawnCard(CardEntity::new(&skeleton(), 3, 6, false))),
            to_2(ServerMessage::SpawnCard(CardEntity::new(&skeleton(), 1, 2, false))),
        ]
    );
    assert_eq!(entity(&game, 3, 6), &CardEntity::new(&skeleton(), 3, 6, false));
    assert!(game.entity_at(1, 2).is_none());
    assert_eq!(game.economy(false), economy(5, 6));
    assert_eq!(game.economy(true), economy(6, 8));
}

#[test]
fn spawn_outside_the_board_does_nothing() {
    let mut game = started();
    for (x, y) in [(5, 0), (-1, 0), (0, 9), (0, -1), (i32::MAX, i32::MIN), (i32::MIN, 0)] {
        assert_eq!(game.spawn_card(&skeleton(), x, y), Ok(vec![]));
    }
    game.end_turn();
    for (x, y) in [(5, 0), (-1, 0), (0, 9), (0, -1), (i32::MIN, i32::MAX)] {
        assert_eq!(game.spawn_card(&skeleton(), x, y), Ok(vec![]));
    }
    assert_eq!(game.economy(true), economy(6, 8));
    assert_eq!(game.economy(false), economy(6, 8));
}

#[test]
fn spawn_on_an_occupied_cell_does_nothing() {
    let mut game = started();
    game.spawn_card(&skeleton(), 2, 2).unwrap();
    assert_eq!(game.spawn_card(&spider(), 2, 2), Ok(vec![]));
    assert_eq!(entity(&game, 2, 2).get_card(), skeleton());
    assert_eq!(game.economy(true), economy(5, 6));
}

#[test]
fn spawn_needs_spirits_and_a_pawn() {
    let mut game = started();
    game.spawn_card(&reaper(), 0, 0).unwrap();
    assert_eq!(game.economy(true), economy(5, 3));
    assert_eq!(game.spawn_card(&spider(), 1, 0), Ok(vec![]));
    assert!(game.entity_at(1, 0).is_none());
    assert_eq!(game.economy(true), economy(5, 3));

    let mut game = started();
    let free = Card::new("free", CardType::Troop, 1, 1, 0, vec![]);
    for x in 0..5 {
        assert_eq!(game.spawn_card(&free, x, 0).map(|out| out.len()), Ok(2));
    }
    assert_eq!(game.spawn_card(&free, 0, 1).map(|out| out.len()), Ok(2));
    assert_eq!(game.economy(true), economy(0, 8));
    assert_eq!(game.spawn_card(&free, 1, 1), Ok(vec![]));
    assert!(game.entity_at(1, 1).is_none());
}

#[test]
fn spawn_cost_beyond_the_counter_is_refused() {
    let mut game = started();
    let gift = Card::new("gift", CardType::Troop, 1, 1, i32::MIN, vec![]);
    assert_eq!(game.spawn_card(&gift, 0, 0), Err(Overflow));
    assert!(game.entity_at(0, 0).is_none());
    assert_eq!(game.economy(true), economy(6, 8));
}

/// An active game, player 1 to move, with a skeleton of player 1 at (2, 4)
/// and one of player 2 at (2, 5), both able to act.
fn facing(first: &Card, second: &Card) -> Game {
    let mut game = started();
    game.spawn_card(first, 2, 4).unwrap();
    game.end_turn();
    game.spawn_card(second, 2, 3).unwrap();
    game.end_turn();
    assert_eq!(entity(&game, 2, 4).stun_count, 0);
    assert_eq!(entity(&game, 2, 5).stun_count, 0);
    assert!(game.is_player_1_turn());
    game
}

#[test]
fn move_relocates_and_tells_both_players() {
    let mut game = facing(&skeleton(), &skeleton());
    let out = game.move_troop(2, 4, 3, 4);
    assert_eq!(
        out,
        vec![
            to_1(ServerMessage::MoveTroop(2, 4, 3, 4)),
            to_2(ServerMessage::MoveTroop(2, 4, 1, 4)),
        ]
    );
    assert!(game.entity_at(2, 4).is_none());
    let moved = entity(&game, 3, 4);
    assert_eq!(moved.get_x_pos(), 3);
    assert_eq!(moved.get_y_pos(), 4);
    assert!(moved.has_moved());
    assert!(!moved.has_attacked());
    assert!(moved.is_owned_by_p1());
    assert_eq!(moved.current_hp, 5);
}

#[test]
fn second_player_moves_in_its_own_orientation() {
    let mut game = facing(&skeleton(), &skeleton());
    game.end_turn();
    let out = game.move_troop(2, 3, 0, 0);
    assert_eq!(
        out,
        vec![
            to_1(ServerMessage::MoveTroop(2, 5, 4, 8)),
            to_2(ServerMessage::MoveTroop(2, 3, 0, 0)),
        ]
    );
    assert!(game.entity_at(2, 5).is_none());
    assert_eq!(entity(&game, 4, 8).get_x_pos(), 4);
    assert_eq!(entity(&game, 4, 8).get_y_pos(), 8);
    assert!(!entity(&game, 4, 8).is_owned_by_p1());
}

#[test]
fn move_into_an_occupied_cell_does_nothing() {
    let mut game = facing(&skeleton(), &skeleton());
    let before = facing(&skeleton(), &skeleton());
    assert!(game.move_troop(2, 4, 2, 5).is_empty());
    assert!(game.move_troop(2, 4, 2, 4).is_empty());
    assert_eq!(game, before);
}

#[test]
fn move_of_the_opponents_entity_does_nothing() {
    let mut game = facing(&skeleton(), &skeleton());
    let before = facing(&skeleton(), &skeleton());
    assert!(game.move_troop(2, 5, 3, 5).is_empty());
    assert_eq!(game, before);
    game.end_turn();
    assert!(game.move_troop(2, 4, 3, 4).is_empty());
    assert_eq!(entity(&game, 2, 4).get_x_pos(), 2);
    assert!(game.entity_at(1, 4).is_none());
    assert!(game.entity_at(3, 4).is_none());
}

#[test]
fn move_from_an_empty_cell_or_off_the_board_does_nothing() {
    let mut game = facing(&skeleton(), &skeleton());
    let before = facing(&skeleton(), &skeleton());
    assert!(game.move_troop(0, 0, 1, 1).is_empty());
    assert!(game.move_troop(2, 4, 5, 4).is_empty());
    assert!(game.move_troop(2, 4, 2, 9).is_empty());
    assert!(game.move_troop(2, 4, -1, 4).is_empty());
    assert!(game.move_troop(-1, 4, 2, 3).is_empty());
    assert!(game.move_troop(i32::MIN, i32::MAX, i32::MAX, i32::MIN).is_empty());
    assert_eq!(game, before);
}

#[test]
fn entity_moves_only_once_a_turn() {
    let mut game = facing(&skeleton(), &skeleton());
    assert_eq!(game.move_troop(2, 4, 3, 4).len(), 2);
    assert!(game.move_troop(3, 4, 4, 4).is_empty());
    assert_eq!(entity(&game, 3, 4).get_x_pos(), 3);
    assert!(game.entity_at(4, 4).is_none());
}

#[test]
fn entity_that_attacked_does_not_move() {
    let mut game = facing(&skeleton(), &kraken());
    assert_eq!(game.attack_troop(2, 4, 2, 5).map(|out| out.len()), Ok(2));
    assert!(entity(&game, 2, 4).has_attacked());
    assert!(game.move_troop(2, 4, 3, 4).is_empty());
    assert!(game.entity_at(3, 4).is_none());
    assert_eq!(entity(&game, 2, 4).get_x_pos(), 2);
}

#[test]
fn stunned_entity_does_not_move() {
    let mut game = started();
    game.spawn_card(&skeleton(), 2, 4).unwrap();
    assert_eq!(entity(&game, 2, 4).stun_count, 1);
    assert!(game.move_troop(2, 4, 3, 4).is_empty());
    assert!(game.entity_at(3, 4).is_none());
    assert_eq!(entity(&game, 2, 4), &CardEntity::new(&skeleton(), 2, 4, true));
}

#[test]
fn illegal_move_from_the_queue_sends_nothing() {
    let mut game = facing(&skeleton(), &skeleton());
    let mut queue_1: VecDeque<ClientMessage> = VecDeque::new();
    let mut queue_2: VecDeque<ClientMessage> = VecDeque::new();
    queue_1.push_back(ClientMessage::MoveTroop(2, 4, 2, 5));
    assert_eq!(game.run(&mut queue_1, &mut queue_2), Ok(vec![]));
    assert!(queue_1.is_empty());
    assert_eq!(entity(&game, 2, 4), entity(&facing(&skeleton(), &skeleton()), 2, 4));
    assert_eq!(entity(&game, 2, 5), entity(&facing(&skeleton(), &skeleton()), 2, 5));
}

#[test]
fn attack_wounds_a_target_that_survives() {
    let mut game = facing(&skeleton(), &skeleton());
    let spirits = game.economy(true);
    let out = game.attack_troop(2, 4, 2, 5).unwrap();
    assert_eq!(
        out,
        vec![
            to_1(ServerMessage::AttackTroop(2, 4, 2, 5)),
            to_2(ServerMessage::AttackTroop(2, 4, 2, 3)),
        ]
    );
    let attacker = entity(&game, 2, 4);
    assert!(attacker.has_attacked());
    assert!(attacker.has_moved());
    assert_eq!(attacker.current_hp, 5);
    let target = entity(&game, 2, 5);
    assert_eq!(target.current_hp, 2);
    assert_eq!(target.stun_count, 0);
    assert!(!target.is_owned_by_p1());
    assert_eq!(game.economy(true), spirits);
    assert_eq!(game.economy(false), economy(5, 6));
}

#[test]
fn second_player_attacks_in_its_own_orientation() {
    let mut game = facing(&skeleton(), &skeleton());
    game.end_turn();
    let out = game.attack_troop(2, 3, 2, 4).unwrap();
    assert_eq!(
        out,
        vec![
            to_1(ServerMessage::AttackTroop(2, 5, 2, 4)),
            to_2(ServerMessage::AttackTroop(2, 3, 2, 4)),
        ]
    );
    assert_eq!(entity(&game, 2, 4).current_hp, 2);
    assert!(entity(&game, 2, 5).has_attacked());
}

#[test]
fn attack_applies_stun_to_the_target() {
    let mut game = facing(&spider(), &skeleton());
    game.attack_troop(2, 4, 2, 5).unwrap();
    assert_eq!(entity(&game, 2, 5).stun_count, 2);
    assert_eq!(entity(&game, 2, 5).current_hp, 3);
    assert_eq!(entity(&game, 2, 4).stun_count, 0);
    game.end_turn();
    assert_eq!(entity(&game, 2, 5).stun_count, 1);
    assert!(game.move_troop(2, 3, 3, 3).is_empty());
    assert_eq!(game.attack_troop(2, 3, 2, 4), Ok(vec![]));
}

#[test]
fn multi_attack_allows_a_second_attack() {
    let mut game = facing(&kraken(), &skeleton());
    assert_eq!(game.attack_troop(2, 4, 2, 5).map(|out| out.len()), Ok(2));
    assert!(!entity(&game, 2, 4).has_attacked());
    assert_eq!(entity(&game, 2, 5).current_hp, 4);
    assert_eq!(game.attack_troop(2, 4, 2, 5).map(|out| out.len()), Ok(2));
    assert!(!entity(&game, 2, 4).has_attacked());
    assert_eq!(entity(&game, 2, 5).current_hp, 3);
    assert_eq!(game.attack_troop(2, 4, 2, 5).map(|out| out.len()), Ok(2));
    assert!(entity(&game, 2, 4).has_attacked());
    assert_eq!(entity(&game, 2, 5).current_hp, 2);
    assert_eq!(game.attack_troop(2, 4, 2, 5), Ok(vec![]));
    assert_eq!(entity(&game, 2, 5).current_hp, 2);
    game.end_turn();
    assert_eq!(
        entity(&game, 2, 4).get_card().get_abilities(),
        vec![CardAbility::MultiAttack { max_attacks: 2, attack_count: 0 }]
    );
}

#[test]
fn kill_with_spirit_collector_pays_the_full_cost() {
    let mut game = facing(&reaper(), &spider());
    assert_eq!(game.economy(true), economy(5, 3));
    assert_eq!(game.economy(false), economy(5, 4));
    let out = game.attack_troop(2, 4, 2, 5).unwrap();
    assert_eq!(
        out,
        vec![
            to_1(ServerMessage::AttackTroop(2, 4, 2, 5)),
            to_2(ServerMessage::AttackTroop(2, 4, 2, 3)),
        ]
    );
    assert_eq!(game.economy(true), economy(5, 7));
    assert_eq!(game.economy(false), economy(6, 4));
    assert!(game.entity_at(2, 4).is_none());
    let winner = entity(&game, 2, 5);
    assert_eq!(winner.get_card(), reaper());
    assert!(winner.is_owned_by_p1());
    assert_eq!(winner.get_x_pos(), 2);
    assert_eq!(winner.get_y_pos(), 5);
    assert!(winner.has_attacked());
    assert!(winner.has_moved());
}

#[test]
fn kill_without_spirit_collector_pays_half_the_cost() {
    let mut game = facing(&brute(), &spider());
    assert_eq!(game.economy(true), economy(5, 3));
    game.attack_troop(2, 4, 2, 5).unwrap();
    assert_eq!(game.economy(true), economy(5, 5));
    assert_eq!(game.economy(false), economy(6, 4));
    assert!(game.entity_at(2, 4).is_none());
    assert_eq!(entity(&game, 2, 5).get_card(), brute());
}

#[test]
fn kill_by_the_second_player_pays_the_second_player() {
    let mut game = facing(&skeleton(), &reaper());
    game.end_turn();
    game.attack_troop(2, 3, 2, 4).unwrap();
    assert_eq!(entity(&game, 2, 4).current_hp, 1);
    game.end_turn();
    game.end_turn();
    game.attack_troop(2, 3, 2, 4).unwrap();
    assert!(game.entity_at(2, 5).is_none());
    assert_eq!(entity(&game, 2, 4).get_card(), reaper());
    assert!(!entity(&game, 2, 4).is_owned_by_p1());
    assert_eq!(game.economy(false), economy(5, 5));
    assert_eq!(game.economy(true), economy(6, 6));
}

#[test]
fn invalid_attacks_do_nothing() {
    let mut game = facing(&skeleton(), &skeleton());
    let before = facing(&skeleton(), &skeleton());
    assert_eq!(game.attack_troop(2, 5, 2, 4), Ok(vec![]));
    assert_eq!(game.attack_troop(2, 4, 2, 4), Ok(vec![]));
    assert_eq!(game.attack_troop(2, 4, 3, 4), Ok(vec![]));
    assert_eq!(game.attack_troop(0, 0, 2, 5), Ok(vec![]));
    assert_eq!(game.attack_troop(2, 4, 2, 9), Ok(vec![]));
    assert_eq!(game.attack_troop(7, 4, 2, 5), Ok(vec![]));
    assert_eq!(game.attack_troop(i32::MIN, 0, i32::MAX, 0), Ok(vec![]));
    assert_eq!(game, before);
    game.spawn_card(&skeleton(), 3, 4).unwrap();
    assert_eq!(game.attack_troop(2, 4, 3, 4), Ok(vec![]));
    assert_eq!(game.attack_troop(3, 4, 2, 5), Ok(vec![]));
    assert_eq!(entity(&game, 2, 5).current_hp, 5);
}

#[test]
fn attack_beyond_a_counter_is_refused() {
    let healer = Card::new("healer", CardType::Troop, 5, -1, 1, vec![]);
    let giant = Card::new("giant", CardType::Troop, i32::MAX, 1, 1, vec![]);
    let mut game = facing(&healer, &giant);
    let before = facing(&healer, &giant);
    assert_eq!(game.attack_troop(2, 4, 2, 5), Err(Overflow));
    assert_eq!(game, before);

    let numbing = Card::new(
        "numbing",
        CardType::Troop,
        5,
        1,
        1,
        vec![CardAbility::Stun { amount: i32::MIN }, CardAbility::Stun { amount: -1 }],
    );
    let mut game = facing(&numbing, &skeleton());
    assert_eq!(game.attack_troop(2, 4, 2, 5), Err(Overflow));
    assert_eq!(game, facing(&numbing, &skeleton()));
}

#[test]
fn end_turn_passes_the_turn_and_resets_every_entity() {
    let mut game = facing(&spider(), &kraken());
    game.attack_troop(2, 4, 2, 5).unwrap();
    assert_eq!(entity(&game, 2, 5).stun_count, 2);
    let out = game.end_turn();
    assert_eq!(out, vec![to_2(ServerMessage::StartTurn)]);
    assert!(!game.is_player_1_turn());
    let attacker = entity(&game, 2, 4);
    assert!(!attacker.has_moved());
    assert!(!attacker.has_attacked());
    assert_eq!(attacker.stun_count, 0);
    let target = entity(&game, 2, 5);
    assert!(!target.has_moved());
    assert!(!target.has_attacked());
    assert_eq!(target.stun_count, 1);
    assert_eq!(target.current_hp, 10);
    let out = game.end_turn();
    assert_eq!(out, vec![to_1(ServerMessage::StartTurn)]);
    assert!(game.is_player_1_turn());
    assert_eq!(entity(&game, 2, 5).stun_count, 0);
    game.end_turn();
    assert_eq!(entity(&game, 2, 5).stun_count, 0);
    assert_eq!(entity(&game, 2, 4).stun_count, 0);
}

#[test]
fn win_needs_an_own_rested_entity_on_an_edge_row() {
    let mut game = started();
    game.spawn_card(&skeleton(), 1, 0).unwrap();
    game.spawn_card(&skeleton(), 1, 4).unwrap();
    // Stunned: fresh from the spawn.
    assert!(game.win_game(1, 0).is_empty());
    assert_eq!(game.phase(), Phase::Active);
    game.end_turn();
    // Not the owner.
    assert!(game.win_game(3, 8).is_empty());
    assert!(game.win_game(1, 0).is_empty());
    assert_eq!(game.phase(), Phase::Active);
    game.end_turn();
    // Not an edge row, an empty cell, off the board.
    assert!(game.win_game(1, 4).is_empty());
    assert!(game.win_game(0, 0).is_empty());
    assert!(game.win_game(1, 9).is_empty());
    assert!(game.win_game(-1, 0).is_empty());
    assert_eq!(game.phase(), Phase::Active);
    let out = game.win_game(1, 0);
    assert_eq!(out, vec![to_1(ServerMessage::EndGame(true)), to_2(ServerMessage::EndGame(false))]);
    assert_eq!(game.phase(), Phase::Finished { player_1_won: true });
    assert!(game.is_finished());
}

#[test]
fn win_is_refused_after_a_move() {
    let mut game = started();
    game.spawn_card(&skeleton(), 1, 7).unwrap();
    game.end_turn();
    game.end_turn();
    assert_eq!(game.move_troop(1, 7, 1, 8).len(), 2);
    assert!(game.win_game(1, 8).is_empty());
    assert_eq!(game.phase(), Phase::Active);
    game.end_turn();
    game.end_turn();
    let out = game.win_game(1, 8);
    assert_eq!(out, vec![to_1(ServerMessage::EndGame(true)), to_2(ServerMessage::EndGame(false))]);
}

#[test]
fn second_player_wins_in_its_own_orientation() {
    let mut game = started();
    game.end_turn();
    game.spawn_card(&skeleton(), 0, 8).unwrap();
    assert_eq!(entity(&game, 4, 0).get_y_pos(), 0);
    game.end_turn();
    game.end_turn();
    assert!(game.win_game(4, 0).is_empty());
    let out = game.win_game(0, 8);
    assert_eq!(out, vec![to_1(ServerMessage::EndGame(false)), to_2(ServerMessage::EndGame(true))]);
    assert_eq!(game.phase(), Phase::Finished { player_1_won: false });
}

#[test]
fn finished_game_does_nothing() {
    let mut game = started();
    game.spawn_card(&skeleton(), 0, 0).unwrap();
    game.end_turn();
    game.end_turn();
    assert_eq!(game.win_game(0, 0).len(), 2);
    let economy_1 = game.economy(true);
    assert_eq!(game.handle(&ClientMessage::EndTurn), Ok(vec![]));
    assert_eq!(game.handle(&ClientMessage::SpawnCard(skeleton(), 1, 1)), Ok(vec![]));
    assert_eq!(game.economy(true), economy_1);
    assert!(game.is_player_1_turn());
    assert!(game.move_troop(0, 0, 0, 1).is_empty());
    assert!(game.chat(true, "gg").is_empty());
    let mut queue_1: VecDeque<ClientMessage> = VecDeque::new();
    let mut queue_2: VecDeque<ClientMessage> = VecDeque::new();
    queue_1.push_back(ClientMessage::EndTurn);
    queue_2.push_back(ClientMessage::ChatMessage("gg".to_string()));
    assert_eq!(game.run(&mut queue_1, &mut queue_2), Ok(vec![]));
    assert_eq!(queue_1.len(), 1);
    assert_eq!(queue_2.len(), 1);
}

#[test]
fn chat_is_prefixed_with_the_senders_name() {
    let game = started();
    assert_eq!(
        game.chat(true, "hello there"),
        vec![
            to_1(ServerMessage::ChatMessage("A: hello there".to_string())),
            to_2(ServerMessage::ChatMessage("A: hello there".to_string())),
        ]
    );
    assert_eq!(
        game.chat(false, "hello there"),
        vec![
            to_1(ServerMessage::ChatMessage("B: hello there".to_string())),
            to_2(ServerMessage::ChatMessage("B: hello there".to_string())),
        ]
    );
}

#[test]
fn chat_over_thirty_bytes_is_dropped() {
    let game = started();
    let long = "a".repeat(31);
    let longest = "a".repeat(30);
    assert!(game.chat(true, &long).is_empty());
    assert!(game.chat(false, &long).is_empty());
    assert_eq!(game.chat(true, &longest).len(), 2);
    assert_eq!(game.chat(false, &longest).len(), 2);
    assert!(chat_outbound("A", &long, "x").is_empty());
    assert!(game.chat_filtered(true, &long, "x").is_empty());
    // Sixteen letters of two bytes each.
    assert!(game.chat(true, &"é".repeat(16)).is_empty());
    assert_eq!(game.chat(true, &"é".repeat(15)).len(), 2);
}

#[test]
fn chat_line_carries_the_filtered_text() {
    let game = started();
    assert_eq!(
        game.chat_filtered(false, "darn it", "d**n it"),
        vec![
            to_1(ServerMessage::ChatMessage("B: d**n it".to_string())),
            to_2(ServerMessage::ChatMessage("B: d**n it".to_string())),
        ]
    );
    assert_eq!(
        chat_outbound("someone", "", ""),
        vec![
            to_1(ServerMessage::ChatMessage("someone: ".to_string())),
            to_2(ServerMessage::ChatMessage("someone: ".to_string())),
        ]
    );
    assert!(Game::new().chat_filtered(true, "hi", "hi").is_empty());
}

#[test]
fn handled_chat_uses_the_filtered_text() {
    let mut game = started();
    let message = ClientMessage::ChatMessage("darn it".to_string());
    assert_eq!(
        game.handle_filtered(&message, "d**n it"),
        Ok(vec![
            to_1(ServerMessage::ChatMessage("A: d**n it".to_string())),
            to_2(ServerMessage::ChatMessage("A: d**n it".to_string())),
        ])
    );
    assert_eq!(game.economy(true), economy(6, 9));
    let long = ClientMessage::ChatMessage("a".repeat(31));
    assert_eq!(game.handle_filtered(&long, "anything"), Ok(vec![]));
    assert_eq!(game.economy(true), economy(6, 10));
    assert_eq!(
        game.handle_filtered(&ClientMessage::EndTurn, "not used"),
        Ok(vec![to_2(ServerMessage::StartTurn)])
    );
    assert_eq!(game.economy(true), economy(6, 11));
    assert!(!game.is_player_1_turn());
}

#[test]
fn chat_is_filtered() {
    let game = started();
    let out = game.chat(true, "fuck");
    assert_eq!(out.len(), 2);
    match &out[0].message {
        ServerMessage::ChatMessage(line) => {
            assert!(line.starts_with("A: "));
            assert_ne!(line, "A: fuck");
            assert!(line.contains('*'));
        },
        other => panic!("not a chat message: {:?}", other),
    }
    assert_eq!(out[0].message, out[1].message);
    assert!(out[0].to_player_1);
    assert!(!out[1].to_player_1);
}

#[test]
fn chat_from_the_active_player_is_relayed_from_the_queue() {
    let mut game = started();
    let mut queue_1: VecDeque<ClientMessage> = VecDeque::new();
    let mut queue_2: VecDeque<ClientMessage> = VecDeque::new();
    queue_1.push_back(ClientMessage::ChatMessage("good luck".to_string()));
    queue_1.push_back(ClientMessage::EndTurn);
    let out = game.run(&mut queue_1, &mut queue_2).unwrap();
    assert_eq!(
        out,
        vec![
            to_1(ServerMessage::ChatMessage("A: good luck".to_string())),
            to_2(ServerMessage::ChatMessage("A: good luck".to_string())),
        ]
    );
    assert_eq!(queue_1.len(), 1);
    assert_eq!(game.economy(true), economy(6, 9));
    queue_1.push_front(ClientMessage::ChatMessage("a".repeat(31)));
    assert_eq!(game.run(&mut queue_1, &mut queue_2), Ok(vec![]));
    assert_eq!(queue_1.len(), 1);
    assert_eq!(game.economy(true), economy(6, 10));
}

#[test]
fn chat_from_the_waiting_player_does_not_wait_for_its_turn() {
    let mut game = started();
    let mut queue_1: VecDeque<ClientMessage> = VecDeque::new();
    let mut queue_2: VecDeque<ClientMessage> = VecDeque::new();
    queue_2.push_back(ClientMessage::SpawnCard(skeleton(), 0, 0));
    queue_2.push_back(ClientMessage::ChatMessage("hurry".to_string()));
    queue_2.push_back(ClientMessage::ChatMessage("b".repeat(31)));
    queue_2.push_back(ClientMessage::EndTurn);
    queue_2.push_back(ClientMessage::ChatMessage("please".to_string()));
    let out = game.run(&mut queue_1, &mut queue_2).unwrap();
    assert_eq!(
        out,
        vec![
            to_1(ServerMessage::ChatMessage("B: hurry".to_string())),
            to_2(ServerMessage::ChatMessage("B: hurry".to_string())),
            to_1(ServerMessage::ChatMessage("B: please".to_string())),
            to_2(ServerMessage::ChatMessage("B: please".to_string())),
        ]
    );
    assert_eq!(
        queue_2,
        VecDeque::from(vec![ClientMessage::SpawnCard(skeleton(), 0, 0), ClientMessage::EndTurn])
    );
    assert!(game.is_player_1_turn());
    assert_eq!(game.economy(false), economy(6, 8));
    assert!(game.entity_at(4, 8).is_none());
}

#[test]
fn a_round_relays_chat_and_then_handles_one_message() {
    let mut game = started();
    let mut queue_1: VecDeque<ClientMessage> = VecDeque::new();
    let mut queue_2: VecDeque<ClientMessage> = VecDeque::new();
    queue_1.push_back(ClientMessage::EndTurn);
    queue_1.push_back(ClientMessage::ChatMessage("done".to_string()));
    queue_2.push_back(ClientMessage::ChatMessage("finally".to_string()));
    queue_2.push_back(ClientMessage::SpawnCard(skeleton(), 0, 0));
    let out = game.run(&mut queue_1, &mut queue_2).unwrap();
    assert_eq!(
        out,
        vec![
            to_1(ServerMessage::ChatMessage("B: finally".to_string())),
            to_2(ServerMessage::ChatMessage("B: finally".to_string())),
            to_2(ServerMessage::StartTurn),
        ]
    );
    assert!(!game.is_player_1_turn());
    assert_eq!(game.economy(true), economy(6, 9));
    let out = game.run(&mut queue_1, &mut queue_2).unwrap();
    assert_eq!(
        out,
        vec![
            to_1(ServerMessage::ChatMessage("A: done".to_string())),
            to_2(ServerMessage::ChatMessage("A: done".to_string())),
            to_1(ServerMessage::SpawnCard(CardEntity::new(&skeleton(), 4, 8, false))),
            to_2(ServerMessage::SpawnCard(CardEntity::new(&skeleton(), 0, 0, false))),
        ]
    );
    assert!(queue_1.is_empty());
    assert!(queue_2.is_empty());
    assert_eq!(game.economy(false), economy(5, 7));
    assert_eq!(game.run(&mut queue_1, &mut queue_2), Ok(vec![]));
    assert_eq!(game.economy(false), economy(5, 7));
}

#[test]
fn messages_of_one_player_are_handled_in_the_order_sent() {
    let mut game = started();
    let mut queue_1: VecDeque<ClientMessage> = VecDeque::new();
    let mut queue_2: VecDeque<ClientMessage> = VecDeque::new();
    queue_1.push_back(ClientMessage::SpawnCard(skeleton(), 0, 0));
    queue_1.push_back(ClientMessage::SpawnCard(spider(), 0, 0));
    queue_1.push_back(ClientMessage::SpawnCard(spider(), 1, 0));
    assert_eq!(game.run(&mut queue_1, &mut queue_2).map(|out| out.len()), Ok(2));
    assert_eq!(game.run(&mut queue_1, &mut queue_2).map(|out| out.len()), Ok(0));
    assert_eq!(game.run(&mut queue_1, &mut queue_2).map(|out| out.len()), Ok(2));
    assert_eq!(entity(&game, 0, 0).get_card(), skeleton());
    assert_eq!(entity(&game, 1, 0).get_card(), spider());
    assert_eq!(game.economy(true), economy(4, 5));
}

#[test]
fn lobby_round_serves_each_player_that_is_awaited() {
    let mut game = Game::new();
    let mut queue_1: VecDeque<ClientMessage> = VecDeque::new();
    let mut queue_2: VecDeque<ClientMessage> = VecDeque::new();
    queue_1.push_back(ClientMessage::EndTurn);
    queue_1.push_back(ClientMessage::PlayerInfo("A".to_string(), deck()));
    queue_1.push_back(ClientMessage::SpawnCard(skeleton(), 2, 8));
    queue_2.push_back(ClientMessage::PlayerInfo("B".to_string(), deck()));
    queue_2.push_back(ClientMessage::ChatMessage("hi".to_string()));
    assert_eq!(game.run(&mut queue_1, &mut queue_2), Ok(vec![]));
    assert_eq!(queue_1.len(), 2);
    assert_eq!(queue_2.len(), 1);
    assert_eq!(game.username(false), "B");
    assert_eq!(game.phase(), Phase::AwaitingDecks);
    let out = game.run(&mut queue_1, &mut queue_2).unwrap();
    assert_eq!(out.len(), 3);
    assert_eq!(game.phase(), Phase::Active);
    assert_eq!(queue_1.len(), 1);
    assert_eq!(queue_2.len(), 1);
    let out = game.run(&mut queue_1, &mut queue_2).unwrap();
    assert_eq!(out.len(), 4);
    assert_eq!(out[0], to_1(ServerMessage::ChatMessage("B: hi".to_string())));
    assert_eq!(out[2], to_1(ServerMessage::SpawnCard(CardEntity::new(&skeleton(), 2, 8, true))));
}

#[test]
fn waiting_chat_leaves_other_messages_in_order() {
    let mut queue: VecDeque<ClientMessage> = VecDeque::new();
    queue.push_back(ClientMessage::ChatMessage("one".to_string()));
    queue.push_back(ClientMessage::MoveTroop(1, 2, 3, 4));
    queue.push_back(ClientMessage::ChatMessage("c".repeat(40)));
    queue.push_back(ClientMessage::Resign);
    queue.push_back(ClientMessage::ChatMessage("two".to_string()));
    let out = relay_waiting_chat("N", &mut queue);
    assert_eq!(
        out,
        vec![
            to_1(ServerMessage::ChatMessage("N: one".to_string())),
            to_2(ServerMessage::ChatMessage("N: one".to_string())),
            to_1(ServerMessage::ChatMessage("N: two".to_string())),
            to_2(ServerMessage::ChatMessage("N: two".to_string())),
        ]
    );
    assert_eq!(
        queue,
        VecDeque::from(vec![ClientMessage::MoveTroop(1, 2, 3, 4), ClientMessage::Resign])
    );
    assert!(relay_waiting_chat("N", &mut VecDeque::new()).is_empty());
}

#[test]
fn board_positions_agree_with_cells_after_play() {
    let mut game = facing(&reaper(), &spider());
    game.move_troop(2, 4, 1, 4);
    game.end_turn();
    game.move_troop(2, 3, 3, 3);
    game.spawn_card(&skeleton(), 0, 0).unwrap();
    game.end_turn();
    game.attack_troop(1, 4, 1, 5).unwrap();
    let mut count = 0;
    for y in 0..9 {
        for x in 0..5 {
            if let Some(found) = game.entity_at(x, y) {
                assert_eq!((found.get_x_pos(), found.get_y_pos()), (x, y));
                count += 1;
            }
        }
    }
    assert_eq!(count, 2);
    assert!(game.entity_at(1, 4).is_none());
    assert_eq!(entity(&game, 1, 5).get_card(), reaper());
    assert_eq!(entity(&game, 4, 8).get_card(), skeleton());
}
