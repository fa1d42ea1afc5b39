//! The standard deck as a collection of cards, and the test for it.

use crate::card::{AllValues, Card, Suit, Value};
use vstd::multiset::Multiset;
use vstd::prelude::*;

verus! {

/// The standard deck: every card once.
pub open spec fn full_deck() -> Multiset<Card> {
    Card::all().to_multiset()
}

/// The place of `card` in the full deck, counted from zero: thirteen places for
/// each suit below its own, then one for each value that the deck lists before
/// its own.
pub open spec fn place_in_deck(card: Card) -> int {
    (card.suit.rank() - 1) * 13 + if card.value == Value::Ace {
        0
    } else {
        card.value.rank() - 1
    }
}

/// The card at the place `i` of the full deck has the place `i`.
pub proof fn lemma_place_of_deck_card(i: int)
    requires
        0 <= i < 52,
    ensures
        place_in_deck(Card::all()[i]) == i,
{
    let suits = Suit::all();
    let values = Value::all();
    assert(suits.len() == 4 && values.len() == 13);
    assert(suits[0] == Suit::Clubs && suits[1] == Suit::Diamonds && suits[2] == Suit::Hearts
        && suits[3] == Suit::Spades);
    assert(values[0] == Value::Ace && values[1] == Value::Two && values[2] == Value::Three
        && values[3] == Value::Four && values[4] == Value::Five && values[5] == Value::Six
        && values[6] == Value::Seven);
    assert(values[7] == Value::Eight && values[8] == Value::Nine && values[9] == Value::Ten
        && values[10] == Value::Jack && values[11] == Value::Queen && values[12] == Value::King);
    let q = i / 13;
    let r = i % 13;
    assert(0 <= q < 4 && 0 <= r < 13 && i == q * 13 + r);
    assert(Card::all()[i] == Card { suit: suits[q], value: values[r] });
    assert(q == 0 || q == 1 || q == 2 || q == 3);
    assert(r == 0 || r == 1 || r == 2 || r == 3 || r == 4 || r == 5 || r == 6 || r == 7 || r == 8
        || r == 9 || r == 10 || r == 11 || r == 12);
}

/// Every card lies in the full deck, at its place.
pub proof fn lemma_card_at_its_place(card: Card)
    ensures
        0 <= place_in_deck(card) < 52,
        Card::all()[place_in_deck(card)] == card,
{
    let p = place_in_deck(card);
    assert(0 <= p < 52);
    lemma_place_of_deck_card(p);
    let found = Card::all()[p];
    assert(found.suit.rank() == card.suit.rank() && found.value.rank() == card.value.rank()) by {
        assert(place_in_deck(found) == p);
    }
}

/// The full deck has fifty-two cards, lists no card twice, and holds every card
/// there is, so each exactly once.
pub proof fn lemma_full_deck_has_each_card_once(card: Card)
    ensures
        Card::all().len() == 52,
        Card::all().no_duplicates(),
        Card::all().contains(card),
        full_deck().count(card) == 1,
        full_deck().len() == 52,
{
    let deck = Card::all();
    assert forall|i: int, j: int| 0 <= i < deck.len() && 0 <= j < deck.len() && i != j implies deck[i]
        != deck[j] by {
        lemma_place_of_deck_card(i);
        lemma_place_of_deck_card(j);
    }
    lemma_card_at_its_place(card);
    assert(deck[place_in_deck(card)] == card);
    deck.to_multiset_ensures();
    deck.lemma_multiset_has_no_duplicates();
}

/// Cards that hold one card at two places are not the full deck.
proof fn lemma_repeated_card_spoils_deck(cards: Seq<Card>, i: int, j: int)
    requires
        0 <= i < j < cards.len(),
        cards[i] == cards[j],
    ensures
        cards.to_multiset() != full_deck(),
{
    if cards.to_multiset() == full_deck() {
        assert forall|x: Card| cards.to_multiset().contains(x) implies cards.to_multiset().count(x)
            == 1 by {
            lemma_full_deck_has_each_card_once(x);
        }
        cards.lemma_multiset_has_no_duplicates_conv();
        assert(cards[i] != cards[j]);
    }
}

/// Cards that lack the card of some place are not the full deck.
proof fn lemma_missing_card_spoils_deck(cards: Seq<Card>, place: int)
    requires
        0 <= place < 52,
        forall|j: int| 0 <= j < cards.len() ==> place_in_deck(#[trigger] cards[j]) != place,
    ensures
        cards.to_multiset() != full_deck(),
{
    let missing = Card::all()[place];
    lemma_place_of_deck_card(place);
    lemma_full_deck_has_each_card_once(missing);
    assert(!cards.contains(missing));
    cards.to_multiset_ensures();
}

/// Cards that list no card twice and hold a card of every place are the full
/// deck.
proof fn lemma_all_places_make_deck(cards: Seq<Card>, first: Seq<int>)
    requires
        cards.no_duplicates(),
        first.len() == 52,
        forall|p: int|
            0 <= p < 52 ==> 0 <= #[trigger] first[p] < cards.len() && place_in_deck(
                cards[first[p]],
            ) == p,
    ensures
        cards.to_multiset() == full_deck(),
{
    cards.to_multiset_ensures();
    cards.lemma_multiset_has_no_duplicates();
    assert forall|x: Card| cards.to_multiset().count(x) == full_deck().count(x) by {
        lemma_full_deck_has_each_card_once(x);
        lemma_card_at_its_place(x);
        let found = cards[first[place_in_deck(x)]];
        lemma_card_at_its_place(found);
        assert(found == x);
        assert(cards.contains(x));
    }
    assert(cards.to_multiset() =~= full_deck());
}

/// Computes the place of `card` in the full deck.
pub fn place_of(card: &Card) -> (place: usize)
    ensures
        place == place_in_deck(*card),
        place < 52,
{
    let suit: usize = (u8::from(card.suit) - 1) as usize;
    let value: usize = if card.value == Value::Ace {
        0
    } else {
        (u8::from(card.value) - 1) as usize
    };
    suit * 13 + value
}

/// Tells whether `cards` are exactly one standard deck: every card once, none
/// twice, none missing, in any order.
pub fn is_full_deck(cards: &Vec<Card>) -> (full: bool)
    ensures
        full == (cards@.to_multiset() == full_deck()),
{
    let mut seen: Vec<bool> = Vec::new();
    while seen.len() < 52
        invariant
            seen@.len() <= 52,
            forall|p: int| 0 <= p < seen@.len() ==> !seen@[p],
        decreases 52 - seen@.len(),
    {
        seen.push(false);
    }
    let ghost mut first: Seq<int> = Seq::new(52, |p: int| 0);
    let mut i: usize = 0;
    while i < cards.len()
        invariant
            i <= cards@.len(),
            seen@.len() == 52,
            first.len() == 52,
            forall|a: int, b: int| 0 <= a < b < i ==> cards@[a] != cards@[b],
            forall|j: int| 0 <= j < i ==> seen@[place_in_deck(#[trigger] cards@[j])],
            forall|p: int|
                0 <= p < 52 && seen@[p] ==> 0 <= #[trigger] first[p] < i && place_in_deck(
                    cards@[first[p]],
                ) == p,
        decreases cards@.len() - i,
    {
        let place = place_of(&cards[i]);
        if seen[place] {
            proof {
                let j = first[place as int];
                lemma_card_at_its_place(cards@[j]);
                lemma_card_at_its_place(cards@[i as int]);
                lemma_repeated_card_spoils_deck(cards@, j, i as int);
            }
            return false;
        }
        proof {
            first = first.update(place as int, i as int);
        }
        seen.set(place, true);
        i += 1;
    }
    let mut place: usize = 0;
    while place < 52
        invariant
            place <= 52,
            seen@.len() == 52,
            first.len() == 52,
            forall|a: int, b: int| 0 <= a < b < cards@.len() ==> cards@[a] != cards@[b],
            forall|j: int| 0 <= j < cards@.len() ==> seen@[place_in_deck(#[trigger] cards@[j])],
            forall|p: int|
                0 <= p < 52 && seen@[p] ==> 0 <= #[trigger] first[p] < cards@.len()
                    && place_in_deck(cards@[first[p]]) == p,
            forall|p: int| 0 <= p < place ==> seen@[p],
        decreases 52 - place,
    {
        if !seen[place] {
            proof {
                lemma_missing_card_spoils_deck(cards@, place as int);
            }
            return false;
        }
        place += 1;
    }
    proof {
        assert(cards@.no_duplicates());
        lemma_all_places_make_deck(cards@, first);
    }
    true
}

} // verus!
