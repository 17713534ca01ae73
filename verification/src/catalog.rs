//! The cards that a deck can be built from, found by name.

use crate::card::{Card, CardAbility, CardType, CardView};
use vstd::prelude::*;

verus! {

/// The cards of the game, each under its own name.
#[derive(Debug, PartialEq, Eq)]
pub struct CardCollection {
    cards: Vec<Card>,
}

/// The skeleton: a cheap troop without abilities.
pub open spec fn skeleton() -> CardView {
    CardView {
        name: "skeleton"@,
        type_: CardType::Troop,
        hp: 5,
        attack: 3,
        cost: 2,
        abilities: seq![],
    }
}

/// The reaper: a troop that collects the full cost of what it kills.
pub open spec fn reaper() -> CardView {
    CardView {
        name: "reaper"@,
        type_: CardType::Troop,
        hp: 6,
        attack: 4,
        cost: 5,
        abilities: seq![CardAbility::SpiritCollector],
    }
}

/// The kraken: a sturdy troop that attacks up to two more times a turn.
pub open spec fn kraken() -> CardView {
    CardView {
        name: "kraken"@,
        type_: CardType::Troop,
        hp: 12,
        attack: 1,
        cost: 5,
        abilities: seq![CardAbility::MultiAttack { max_attacks: 2, attack_count: 0 }],
    }
}

/// The spider: a troop whose attack stuns.
pub open spec fn spider() -> CardView {
    CardView {
        name: "spider"@,
        type_: CardType::Troop,
        hp: 4,
        attack: 2,
        cost: 4,
        abilities: seq![CardAbility::Stun { amount: 2 }],
    }
}

/// The cards of the game.
pub open spec fn catalog() -> Seq<CardView> {
    seq![skeleton(), reaper(), kraken(), spider()]
}

/// Whether some card of the list has the given name.
pub open spec fn has_name(cards: Seq<CardView>, name: Seq<char>) -> bool {
    exists|i: int| 0 <= i < cards.len() && (#[trigger] cards[i]).name == name
}

/// Whether no name occurs twice in the list.
pub open spec fn names_differ(cards: Seq<CardView>) -> bool {
    forall|i: int, j: int|
        0 <= i < j < cards.len() ==> (#[trigger] cards[i]).name != (#[trigger] cards[j]).name
}

/// No two cards of the game share a name.
pub proof fn lemma_catalog_names_differ()
    ensures
        names_differ(catalog()),
{
    reveal_strlit("skeleton");
    reveal_strlit("reaper");
    reveal_strlit("kraken");
    reveal_strlit("spider");
    assert("skeleton"@.len() == 8);
    assert("reaper"@[0] == 'r');
    assert("kraken"@[0] == 'k');
    assert("spider"@[0] == 's');
}

impl View for CardCollection {
    type V = Seq<CardView>;

    closed spec fn view(&self) -> Seq<CardView> {
        Seq::new(self.cards@.len(), |i: int| self.cards@[i]@)
    }
}

impl CardCollection {
    /// The collection of the cards of the game.
    pub fn new() -> (collection: CardCollection)
        ensures
            collection@ == catalog(),
    {
        let mut cards: Vec<Card> = Vec::new();
        cards.push(Card::new("skeleton", CardType::Troop, 5, 3, 2, Vec::new()));
        let mut collecting: Vec<CardAbility> = Vec::new();
        collecting.push(CardAbility::SpiritCollector);
        cards.push(Card::new("reaper", CardType::Troop, 6, 4, 5, collecting));
        let mut twice: Vec<CardAbility> = Vec::new();
        twice.push(CardAbility::MultiAttack { max_attacks: 2, attack_count: 0 });
        cards.push(Card::new("kraken", CardType::Troop, 12, 1, 5, twice));
        let mut stunning: Vec<CardAbility> = Vec::new();
        stunning.push(CardAbility::Stun { amount: 2 });
        cards.push(Card::new("spider", CardType::Troop, 4, 2, 4, stunning));
        let collection = CardCollection { cards };
        proof {
            assert(collection.cards@[0]@.abilities =~= skeleton().abilities);
            assert(collection.cards@[1]@.abilities =~= reaper().abilities);
            assert(collection.cards@[2]@.abilities =~= kraken().abilities);
            assert(collection.cards@[3]@.abilities =~= spider().abilities);
            assert(collection@ =~= catalog());
        }
        collection
    }

    /// The card of the given name, if the collection has one.
    pub fn get(&self, name: &str) -> (card: Option<&Card>)
        ensures
            card is Some <==> has_name(self@, name@),
            card is Some ==> card->0@.name == name@ && self@.contains(card->0@),
    {
        let wanted: String = name.to_owned();
        let mut i: usize = 0;
        while i < self.cards.len()
            invariant
                i <= self.cards.len(),
                wanted@ == name@,
                forall|k: int| 0 <= k < i ==> (#[trigger] self@[k]).name != name@,
            decreases self.cards.len() - i,
        {
            if self.cards[i].get_name() == wanted {
                assert(self@[i as int].name == name@);
                return Some(&self.cards[i]);
            }
            i = i + 1;
        }
        None
    }
}

impl Card {
    /// The card of the game that has the given name; the skeleton where
    /// there is none of that name.
    pub fn from(value: &str) -> (card: Card)
        ensures
            catalog().contains(card@),
            has_name(catalog(), value@) ==> card@.name == value@,
            !has_name(catalog(), value@) ==> card@ == skeleton(),
    {
        let collection: CardCollection = CardCollection::new();
        match collection.get(value) {
            Some(card) => card.clone(),
            None => match collection.get("skeleton") {
                Some(card) => {
                    proof {
                        lemma_catalog_names_differ();
                        assert(catalog()[0] == skeleton());
                    }
                    card.clone()
                },
                None => {
                    proof {
                        assert(catalog()[0].name == "skeleton"@);
                    }
                    Card::new("skeleton", CardType::Troop, 5, 3, 2, Vec::new())
                },
            },
        }
    }
}

} // verus!
