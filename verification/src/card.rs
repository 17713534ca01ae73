//! Cards, the entities they become on the board, and the rules by which an
//! entity's abilities change its state when it attacks or a turn ends.

use vstd::prelude::*;

verus! {

/// What kind of card a template describes.
#[derive(Clone, Copy, Debug, PartialEq, Eq, Structural)]
pub enum CardType {
    Troop,
    Spell,
    Building,
}

/// A card ability. `MultiAttack` carries its own counter of attacks made
/// since the last turn reset.
#[derive(Clone, Copy, Debug, PartialEq, Eq, Structural)]
pub enum CardAbility {
    MultiAttack { max_attacks: u8, attack_count: u8 },
    SpiritCollector,
    Stun { amount: i32 },
}

/// A card template: name, kind, statistics and abilities.
#[derive(Debug, PartialEq, Eq)]
pub struct Card {
    pub name: String,
    type_: CardType,
    hp: i32,
    attack: i32,
    cost: i32,
    abilities: Vec<CardAbility>,
}

/// The mathematical value of a [`Card`].
pub struct CardView {
    pub name: Seq<char>,
    pub type_: CardType,
    pub hp: int,
    pub attack: int,
    pub cost: int,
    pub abilities: Seq<CardAbility>,
}

/// A card in play: the card instance, its remaining health, its cell, its
/// owner and what it has done this turn.
#[derive(Debug, PartialEq, Eq)]
pub struct CardEntity {
    card: Card,
    pub current_hp: i32,
    position_x: i32,
    position_y: i32,
    is_owned_by_p1: bool,
    has_moved: bool,
    has_attacked: bool,
    pub stun_count: i32,
}

/// The mathematical value of a [`CardEntity`].
pub struct EntityView {
    pub card: CardView,
    pub current_hp: int,
    pub position_x: int,
    pub position_y: int,
    pub owned_by_p1: bool,
    pub has_moved: bool,
    pub has_attacked: bool,
    pub stun_count: int,
}

/// The stun counter that a freshly created entity starts with.
pub const INITIAL_STUN: i32 = 1;

// ---------------------------------------------------------------------------
// Ability rules over sequences of abilities
// ---------------------------------------------------------------------------

/// The stun that one ability inflicts on the target of an attack.
pub open spec fn stun_of(ability: CardAbility) -> int {
    match ability {
        CardAbility::Stun { amount } => amount as int,
        _ => 0,
    }
}

/// The sum of the amounts of all `Stun` abilities in the sequence.
pub open spec fn stun_total(abilities: Seq<CardAbility>) -> int
    decreases abilities.len(),
{
    if abilities.len() == 0 {
        0
    } else {
        stun_total(abilities.drop_last()) + stun_of(abilities.last())
    }
}

/// Whether an ability is a `MultiAttack` that still has attacks left.
pub open spec fn has_budget(ability: CardAbility) -> bool {
    match ability {
        CardAbility::MultiAttack { max_attacks, attack_count } => attack_count < max_attacks,
        _ => false,
    }
}

/// Whether `i` is the position of the first ability that still has attacks left.
pub open spec fn is_first_with_budget(abilities: Seq<CardAbility>, i: int) -> bool {
    &&& 0 <= i < abilities.len()
    &&& has_budget(abilities[i])
    &&& forall|j: int| 0 <= j < i ==> !has_budget(#[trigger] abilities[j])
}

/// Whether any ability in the sequence still has attacks left.
pub open spec fn any_budget(abilities: Seq<CardAbility>) -> bool {
    exists|i: int| is_first_with_budget(abilities, i)
}

/// The ability after one more attack was counted on it.
pub open spec fn charged(ability: CardAbility) -> CardAbility {
    match ability {
        CardAbility::MultiAttack { max_attacks, attack_count } => CardAbility::MultiAttack {
            max_attacks,
            attack_count: (attack_count + 1) as u8,
        },
        other => other,
    }
}

/// The abilities after an attack: the first `MultiAttack` with attacks left
/// counts one more; without one, nothing changes.
pub open spec fn charge_first(abilities: Seq<CardAbility>) -> Seq<CardAbility> {
    if any_budget(abilities) {
        let i = choose|i: int| is_first_with_budget(abilities, i);
        abilities.update(i, charged(abilities[i]))
    } else {
        abilities
    }
}

/// The ability at the start of a new turn: a `MultiAttack` counter is back at 0.
pub open spec fn rested(ability: CardAbility) -> CardAbility {
    match ability {
        CardAbility::MultiAttack { max_attacks, attack_count } => CardAbility::MultiAttack {
            max_attacks,
            attack_count: 0,
        },
        other => other,
    }
}

/// Every ability at the start of a new turn.
pub open spec fn rest_all(abilities: Seq<CardAbility>) -> Seq<CardAbility> {
    Seq::new(abilities.len(), |i: int| rested(abilities[i]))
}

/// Whether the sequence holds `SpiritCollector`.
pub open spec fn collects_spirits(abilities: Seq<CardAbility>) -> bool {
    abilities.contains(CardAbility::SpiritCollector)
}

/// The spirits earned for killing a card of the given cost: the full cost
/// with `SpiritCollector`, else half of it, rounded down.
pub open spec fn kill_reward(abilities: Seq<CardAbility>, cost: int) -> int {
    if collects_spirits(abilities) {
        cost
    } else {
        cost / 2
    }
}

/// At most one position is the first with attacks left.
pub proof fn lemma_first_with_budget_unique(abilities: Seq<CardAbility>, i: int, j: int)
    requires
        is_first_with_budget(abilities, i),
        is_first_with_budget(abilities, j),
    ensures
        i == j,
{
    if i < j {
        assert(!has_budget(abilities[i]));
    }
    if j < i {
        assert(!has_budget(abilities[j]));
    }
}

// ---------------------------------------------------------------------------
// Entity rules over views
// ---------------------------------------------------------------------------

impl EntityView {
    /// The entity after it moved to another cell.
    pub open spec fn relocated(self, x: int, y: int) -> EntityView {
        EntityView { position_x: x, position_y: y, ..self }
    }

    /// The entity with its move recorded.
    pub open spec fn with_moved(self) -> EntityView {
        EntityView { has_moved: true, ..self }
    }

    /// The entity after its attack was counted: against the first
    /// `MultiAttack` with attacks left, else as its one attack of the turn.
    pub open spec fn action_consumed(self) -> EntityView {
        if any_budget(self.card.abilities) {
            EntityView {
                card: CardView { abilities: charge_first(self.card.abilities), ..self.card },
                ..self
            }
        } else {
            EntityView { has_attacked: true, ..self }
        }
    }

    /// The entity after `attacker` hit it with its `Stun` abilities.
    pub open spec fn stunned_by(self, attacker: EntityView) -> EntityView {
        EntityView {
            stun_count: self.stun_count + stun_total(attacker.card.abilities),
            ..self
        }
    }

    /// The entity after `attacker` dealt its damage.
    pub open spec fn damaged_by(self, attacker: EntityView) -> EntityView {
        EntityView { current_hp: self.current_hp - attacker.card.attack, ..self }
    }

    /// The entity at the start of a new turn.
    pub open spec fn refreshed(self) -> EntityView {
        EntityView {
            card: CardView { abilities: rest_all(self.card.abilities), ..self.card },
            has_moved: false,
            has_attacked: false,
            stun_count: if self.stun_count > 0 {
                self.stun_count - 1
            } else {
                self.stun_count
            },
            ..self
        }
    }

    /// Whether the entity is no longer alive.
    pub open spec fn is_dead(self) -> bool {
        self.current_hp <= 0
    }
}

/// The entity that a card becomes when it is put on the board.
pub open spec fn spawned(card: CardView, x: int, y: int, owned_by_p1: bool) -> EntityView {
    EntityView {
        card,
        current_hp: card.hp,
        position_x: x,
        position_y: y,
        owned_by_p1,
        has_moved: false,
        has_attacked: false,
        stun_count: INITIAL_STUN as int,
    }
}

// ---------------------------------------------------------------------------
// Card
// ---------------------------------------------------------------------------

impl View for Card {
    type V = CardView;

    closed spec fn view(&self) -> CardView {
        CardView {
            name: self.name@,
            type_: self.type_,
            hp: self.hp as int,
            attack: self.attack as int,
            cost: self.cost as int,
            abilities: self.abilities@,
        }
    }
}

impl Clone for Card {
    fn clone(&self) -> (res: Self)
        ensures
            res@ == self@,
    {
        let abilities = copy_abilities(&self.abilities);
        Card {
            name: self.name.clone(),
            type_: self.type_,
            hp: self.hp,
            attack: self.attack,
            cost: self.cost,
            abilities,
        }
    }
}

/// A copy of a list of abilities.
fn copy_abilities(abilities: &Vec<CardAbility>) -> (res: Vec<CardAbility>)
    ensures
        res@ == abilities@,
{
    let mut res: Vec<CardAbility> = Vec::new();
    let mut i: usize = 0;
    while i < abilities.len()
        invariant
            i <= abilities.len(),
            res@ == abilities@.take(i as int),
        decreases abilities.len() - i,
    {
        res.push(abilities[i]);
        i = i + 1;
        assert(res@ =~= abilities@.take(i as int));
    }
    assert(abilities@.take(i as int) =~= abilities@);
    res
}

impl Card {
    /// A card with the given name, kind, statistics and abilities.
    pub fn new(
        name: &str,
        type_: CardType,
        hp: i32,
        attack: i32,
        cost: i32,
        abilities: Vec<CardAbility>,
    ) -> (card: Card)
        ensures
            card@ == (CardView {
                name: name@,
                type_,
                hp: hp as int,
                attack: attack as int,
                cost: cost as int,
                abilities: abilities@,
            }),
    {
        Card { name: name.to_owned(), type_, hp, attack, cost, abilities }
    }

    /// The damage that the card deals with one attack.
    pub fn get_damage(&self) -> (damage: i32)
        ensures
            damage == self@.attack,
    {
        self.attack
    }

    /// The card's name.
    pub fn get_name(&self) -> (name: String)
        ensures
            name@ == self@.name,
    {
        self.name.clone()
    }

    /// The card's kind.
    pub fn get_type(&self) -> (type_: CardType)
        ensures
            type_ == self@.type_,
    {
        self.type_
    }

    /// The spirits that the card costs to spawn.
    pub fn get_cost(&self) -> (cost: i32)
        ensures
            cost == self@.cost,
    {
        self.cost
    }

    /// The health that an entity of this card starts with.
    pub fn get_hp(&self) -> (hp: i32)
        ensures
            hp == self@.hp,
    {
        self.hp
    }

    /// A copy of the card's abilities.
    pub fn get_abilities(&self) -> (abilities: Vec<CardAbility>)
        ensures
            abilities@ == self@.abilities,
    {
        copy_abilities(&self.abilities)
    }

    /// The card's abilities, to change in place.
    pub fn get_abilities_mut(&mut self) -> (abilities: &mut Vec<CardAbility>)
        ensures
            abilities@ == old(self)@.abilities,
            final(self)@ == (CardView { abilities: final(abilities)@, ..old(self)@ }),
    {
        &mut self.abilities
    }
}

// ---------------------------------------------------------------------------
// CardEntity
// ---------------------------------------------------------------------------

/// An arithmetic result that a 32-bit counter cannot hold.
#[derive(Clone, Copy, Debug, PartialEq, Eq)]
pub struct Overflow;

/// A bound on the size of the stun that one attack can inflict: the longest
/// list of abilities, each at the largest amount.
pub const STUN_TOTAL_BOUND: i128 = 0x8000_0000_0000_0000_0000_0000;

/// Whether a value fits a 32-bit signed counter.
pub open spec fn fits_i32(v: int) -> bool {
    i32::MIN <= v <= i32::MAX
}

impl View for CardEntity {
    type V = EntityView;

    closed spec fn view(&self) -> EntityView {
        EntityView {
            card: self.card@,
            current_hp: self.current_hp as int,
            position_x: self.position_x as int,
            position_y: self.position_y as int,
            owned_by_p1: self.is_owned_by_p1,
            has_moved: self.has_moved,
            has_attacked: self.has_attacked,
            stun_count: self.stun_count as int,
        }
    }
}

impl Clone for CardEntity {
    fn clone(&self) -> (res: Self)
        ensures
            res@ == self@,
    {
        CardEntity {
            card: self.card.clone(),
            current_hp: self.current_hp,
            position_x: self.position_x,
            position_y: self.position_y,
            is_owned_by_p1: self.is_owned_by_p1,
            has_moved: self.has_moved,
            has_attacked: self.has_attacked,
            stun_count: self.stun_count,
        }
    }
}

impl CardEntity {
    /// The entity that `card` becomes at cell `(position_x, position_y)`:
    /// at full health, with nothing done this turn and the initial stun.
    pub fn new(card: &Card, position_x: i32, position_y: i32, is_owned_by_p1: bool) -> (entity:
        CardEntity)
        ensures
            entity@ == spawned(card@, position_x as int, position_y as int, is_owned_by_p1),
    {
        CardEntity {
            card: card.clone(),
            position_x,
            position_y,
            is_owned_by_p1,
            current_hp: card.hp,
            has_moved: false,
            has_attacked: false,
            stun_count: INITIAL_STUN,
        }
    }

    /// The entity with every part of its state given.
    pub fn from_parts(
        card: Card,
        current_hp: i32,
        position_x: i32,
        position_y: i32,
        is_owned_by_p1: bool,
        has_moved: bool,
        has_attacked: bool,
        stun_count: i32,
    ) -> (entity: CardEntity)
        ensures
            entity@ == (EntityView {
                card: card@,
                current_hp: current_hp as int,
                position_x: position_x as int,
                position_y: position_y as int,
                owned_by_p1: is_owned_by_p1,
                has_moved,
                has_attacked,
                stun_count: stun_count as int,
            }),
    {
        CardEntity {
            card,
            current_hp,
            position_x,
            position_y,
            is_owned_by_p1,
            has_moved,
            has_attacked,
            stun_count,
        }
    }

    /// The column of the entity's cell.
    pub fn get_x_pos(&self) -> (x: i32)
        ensures
            x == self@.position_x,
    {
        self.position_x
    }

    /// The row of the entity's cell.
    pub fn get_y_pos(&self) -> (y: i32)
        ensures
            y == self@.position_y,
    {
        self.position_y
    }

    /// Sets the column of the entity's cell.
    pub fn set_x_pos(&mut self, x: i32)
        ensures
            final(self)@ == (EntityView { position_x: x as int, ..old(self)@ }),
    {
        self.position_x = x;
    }

    /// Sets the row of the entity's cell.
    pub fn set_y_pos(&mut self, y: i32)
        ensures
            final(self)@ == (EntityView { position_y: y as int, ..old(self)@ }),
    {
        self.position_y = y;
    }

    /// Whether player 1 owns the entity.
    pub fn is_owned_by_p1(&self) -> (owned: bool)
        ensures
            owned == self@.owned_by_p1,
    {
        self.is_owned_by_p1
    }

    /// Whether the entity has moved this turn.
    pub fn has_moved(&self) -> (moved: bool)
        ensures
            moved == self@.has_moved,
    {
        self.has_moved
    }

    /// Whether the entity has used up its attacks this turn.
    pub fn has_attacked(&self) -> (attacked: bool)
        ensures
            attacked == self@.has_attacked,
    {
        self.has_attacked
    }

    /// The entity's remaining health.
    pub fn get_current_hp(&self) -> (hp: i32)
        ensures
            hp == self@.current_hp,
    {
        self.current_hp
    }

    /// The entity's stun counter.
    pub fn get_stun_count(&self) -> (stun: i32)
        ensures
            stun == self@.stun_count,
    {
        self.stun_count
    }

    /// A copy of the entity's card.
    pub fn get_card(&self) -> (card: Card)
        ensures
            card@ == self@.card,
    {
        self.card.clone()
    }

    /// Records that the entity moved this turn.
    pub fn moved(&mut self)
        ensures
            final(self)@ == old(self)@.with_moved(),
    {
        self.has_moved = true;
    }

    /// Counts one attack: against the first `MultiAttack` ability that has
    /// attacks left, else as the entity's one attack of the turn.
    pub fn attacked(&mut self)
        ensures
            final(self)@ == old(self)@.action_consumed(),
    {
        let n: usize = self.card.abilities.len();
        let mut i: usize = 0;
        while i < n
            invariant
                i <= n,
                n == self.card.abilities.len(),
                *self == *old(self),
                forall|j: int| 0 <= j < i ==> !has_budget(#[trigger] self.card.abilities@[j]),
            decreases n - i,
        {
            let ability: CardAbility = self.card.abilities[i];
            if let CardAbility::MultiAttack { max_attacks, attack_count } = ability {
                if attack_count < max_attacks {
                    let ghost before = self.card.abilities@;
                    self.card.abilities[i] = CardAbility::MultiAttack {
                        max_attacks,
                        attack_count: attack_count + 1,
                    };
                    proof {
                        assert(is_first_with_budget(before, i as int));
                        let k = choose|k: int| is_first_with_budget(before, k);
                        lemma_first_with_budget_unique(before, i as int, k);
                    }
                    return ;
                }
            }
            i = i + 1;
        }
        proof {
            let abilities = self.card.abilities@;
            assert forall|k: int| !is_first_with_budget(abilities, k) by {
                if 0 <= k < abilities.len() {
                    assert(!has_budget(abilities[k]));
                }
            }
        }
        self.has_attacked = true;
    }

    /// Prepares the entity for a new turn: it may move and attack again, its
    /// stun counter drops by one unless it is 0 or less, and every
    /// `MultiAttack` counter is back at 0.
    pub fn reset(&mut self)
        ensures
            final(self)@ == old(self)@.refreshed(),
    {
        self.has_moved = false;
        self.has_attacked = false;
        if self.stun_count > 0 {
            self.stun_count = self.stun_count - 1;
        }
        let n: usize = self.card.abilities.len();
        let mut i: usize = 0;
        while i < n
            invariant
                i <= n,
                n == self.card.abilities.len(),
                n == old(self).card.abilities.len(),
                self@ == (EntityView {
                    card: CardView { abilities: self.card.abilities@, ..old(self)@.card },
                    ..old(self)@.refreshed()
                }),
                forall|j: int|
                    0 <= j < i ==> self.card.abilities@[j] == rested(
                        #[trigger] old(self).card.abilities@[j],
                    ),
                forall|j: int|
                    i <= j < n ==> self.card.abilities@[j] == #[trigger] old(
                        self,
                    ).card.abilities@[j],
            decreases n - i,
        {
            let ability: CardAbility = self.card.abilities[i];
            if let CardAbility::MultiAttack { max_attacks, attack_count: _ } = ability {
                self.card.abilities[i] = CardAbility::MultiAttack { max_attacks, attack_count: 0 };
            }
            i = i + 1;
        }
        assert(self.card.abilities@ =~= rest_all(old(self).card.abilities@));
    }

    /// The stun that an attack by this entity inflicts on its target.
    pub fn stun_inflicted(&self) -> (total: i128)
        ensures
            total == stun_total(self@.card.abilities),
            -STUN_TOTAL_BOUND <= total <= STUN_TOTAL_BOUND,
    {
        let n: usize = self.card.abilities.len();
        let mut total: i128 = 0;
        let mut i: usize = 0;
        while i < n
            invariant
                i <= n,
                n == self.card.abilities.len(),
                total == stun_total(self.card.abilities@.take(i as int)),
                -(i as int) * 0x8000_0000 <= total <= (i as int) * 0x8000_0000,
            decreases n - i,
        {
            let ability: CardAbility = self.card.abilities[i];
            proof {
                let next = self.card.abilities@.take(i + 1);
                assert(next.drop_last() =~= self.card.abilities@.take(i as int));
                assert(next.last() == ability);
                assert((i + 1) * 0x8000_0000 == i * 0x8000_0000 + 0x8000_0000) by (nonlinear_arith);
                assert(i * 0x8000_0000 <= 0xffff_ffff_ffff_ffff * 0x8000_0000) by (nonlinear_arith)
                    requires
                        i <= 0xffff_ffff_ffff_ffff,
                ;
            }
            if let CardAbility::Stun { amount } = ability {
                total = total + amount as i128;
            }
            i = i + 1;
        }
        assert(self.card.abilities@.take(n as int) =~= self.card.abilities@);
        assert(n * 0x8000_0000 <= 0xffff_ffff_ffff_ffff * 0x8000_0000) by (nonlinear_arith)
            requires
                n <= 0xffff_ffff_ffff_ffff,
        ;
        total
    }

    /// Adds the attacker's `Stun` amounts to this entity's stun counter, or
    /// changes nothing where the counter cannot hold the sum.
    pub fn apply_stun_on_attack(&mut self, attacker: &CardEntity) -> (res: Result<(), Overflow>)
        ensures
            res is Ok <==> fits_i32(old(self)@.stunned_by(attacker@).stun_count),
            res is Ok ==> final(self)@ == old(self)@.stunned_by(attacker@),
            res is Err ==> final(self)@ == old(self)@,
    {
        let sum: i128 = self.stun_count as i128 + attacker.stun_inflicted();
        if sum < i32::MIN as i128 || sum > i32::MAX as i128 {
            return Err(Overflow);
        }
        self.stun_count = sum as i32;
        Ok(())
    }

    /// Subtracts the attacker's damage from this entity's health, or changes
    /// nothing where the health cannot hold the difference.
    pub fn take_damage(&mut self, attacker: &CardEntity) -> (res: Result<(), Overflow>)
        ensures
            res is Ok <==> fits_i32(old(self)@.damaged_by(attacker@).current_hp),
            res is Ok ==> final(self)@ == old(self)@.damaged_by(attacker@),
            res is Err ==> final(self)@ == old(self)@,
    {
        match self.current_hp.checked_sub(attacker.card.attack) {
            Some(hp) => {
                self.current_hp = hp;
                Ok(())
            },
            None => Err(Overflow),
        }
    }

    /// Whether the entity's health is used up.
    pub fn is_dead(&self) -> (dead: bool)
        ensures
            dead == self@.is_dead(),
    {
        self.current_hp <= 0
    }

    /// Whether the entity's card has the `SpiritCollector` ability.
    pub fn is_spirit_collector(&self) -> (collects: bool)
        ensures
            collects == collects_spirits(self@.card.abilities),
    {
        let n: usize = self.card.abilities.len();
        let mut i: usize = 0;
        while i < n
            invariant
                i <= n,
                n == self.card.abilities.len(),
                forall|j: int|
                    0 <= j < i ==> #[trigger] self.card.abilities@[j]
                        != CardAbility::SpiritCollector,
            decreases n - i,
        {
            if self.card.abilities[i] == CardAbility::SpiritCollector {
                return true;
            }
            i = i + 1;
        }
        false
    }

    /// The spirits that this entity's owner earns for killing `killed`: its
    /// full cost with `SpiritCollector`, else half of it, rounded down.
    pub fn reward_on_kill(&self, killed: &Card) -> (reward: i32)
        ensures
            reward == kill_reward(self@.card.abilities, killed@.cost),
    {
        if self.is_spirit_collector() {
            killed.cost
        } else {
            match killed.cost.checked_div_euclid(2) {
                Some(half) => half,
                None => 0,
            }
        }
    }
}

} // verus!
