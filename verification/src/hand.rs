//! A hand of exactly three cards.

use crate::card::Card;
use crate::score::{score_cards, score_of, Score};
use vstd::multiset::Multiset;
use vstd::prelude::*;
use vstd::string::StringExecFns;

verus! {

/// Names one of the three places in a hand.
#[derive(Copy, Clone)]
pub enum HandCard {
    FirstCard,
    SecondCard,
    ThirdCard,
}

/// Three cards, held in three fixed places.
pub enum HandEnum {
    Hand(Card, Card, Card),
}

impl HandEnum {
    /// The card in the place `index`.
    pub open spec fn card_at(self, index: HandCard) -> Card {
        match (self, index) {
            (HandEnum::Hand(c1, _, _), HandCard::FirstCard) => c1,
            (HandEnum::Hand(_, c2, _), HandCard::SecondCard) => c2,
            (HandEnum::Hand(_, _, c3), HandCard::ThirdCard) => c3,
        }
    }

    /// The hand with `card` in the place `index` and the other two places as
    /// they are.
    pub open spec fn with_card(self, index: HandCard, card: Card) -> HandEnum {
        match (self, index) {
            (HandEnum::Hand(_, c2, c3), HandCard::FirstCard) => HandEnum::Hand(card, c2, c3),
            (HandEnum::Hand(c1, _, c3), HandCard::SecondCard) => HandEnum::Hand(c1, card, c3),
            (HandEnum::Hand(c1, c2, _), HandCard::ThirdCard) => HandEnum::Hand(c1, c2, card),
        }
    }

    /// The three cards, as a multiset.
    pub open spec fn cards(self) -> Multiset<Card> {
        match self {
            HandEnum::Hand(c1, c2, c3) => Multiset::empty().insert(c1).insert(c2).insert(c3),
        }
    }

    /// What the hand is worth.
    pub open spec fn score_value(self) -> Score {
        match self {
            HandEnum::Hand(c1, c2, c3) => score_of(c1, c2, c3),
        }
    }

    /// Whether the hand is worth thirty-one points or more. Three of a kind is
    /// not.
    pub open spec fn reaches_31(self) -> bool {
        match self.score_value() {
            Score::Simple(x) => x >= 31,
            Score::ThirtyAndAHalf => false,
        }
    }

    /// The hand in text: "a ", the first card, ", a ", the second, " and a ",
    /// the third.
    pub open spec fn label(self) -> Seq<char> {
        match self {
            HandEnum::Hand(c1, c2, c3) => "a "@ + c1.label() + ", a "@ + c2.label() + " and a "@
                + c3.label(),
        }
    }

    /// Puts `new_card` in the place `index` and hands back the card that was
    /// there.
    pub fn swap(&mut self, index: HandCard, new_card: Card) -> (previous: Card)
        ensures
            previous == old(self).card_at(index),
            *final(self) == old(self).with_card(index, new_card),
    {
        match self {
            HandEnum::Hand(c1, c2, c3) => match index {
                HandCard::FirstCard => {
                    let result = *c1;
                    *c1 = new_card;
                    result
                },
                HandCard::SecondCard => {
                    let result = *c2;
                    *c2 = new_card;
                    result
                },
                HandCard::ThirdCard => {
                    let result = *c3;
                    *c3 = new_card;
                    result
                },
            },
        }
    }

    /// Scores the hand.
    pub fn score(&self) -> (score: Score)
        ensures
            score == self.score_value(),
    {
        match self {
            HandEnum::Hand(c1, c2, c3) => score_cards(c1, c2, c3),
        }
    }

    /// Tells whether the hand is worth thirty-one points or more.
    pub fn is_31(&self) -> (reached: bool)
        ensures
            reached == self.reaches_31(),
    {
        match self.score() {
            Score::Simple(x) => x >= 31,
            _ => false,
        }
    }

    /// Renders the hand as a list of its three cards.
    pub fn display(&self) -> (s: String)
        ensures
            s@ == self.label(),
    {
        match self {
            HandEnum::Hand(c1, c2, c3) => {
                let mut s = String::from_str("a ");
                let first = c1.display();
                s.append(first.as_str());
                s.append(", a ");
                let second = c2.display();
                s.append(second.as_str());
                s.append(" and a ");
                let third = c3.display();
                s.append(third.as_str());
                s
            },
        }
    }
}

/// After a swap the place holds the new card, and the other two places hold
/// what they held.
pub proof fn lemma_swap_touches_one_place(
    hand: HandEnum,
    index: HandCard,
    other: HandCard,
    card: Card,
)
    ensures
        hand.with_card(index, card).card_at(index) == card,
        other != index ==> hand.with_card(index, card).card_at(other) == hand.card_at(other),
{
}

/// Two swaps in one place, of `x` and then of `y`, leave the hand as one swap
/// of `y` does; the second swap hands back `x`.
pub proof fn lemma_swap_twice(hand: HandEnum, index: HandCard, x: Card, y: Card)
    ensures
        hand.with_card(index, x).with_card(index, y) == hand.with_card(index, y),
        hand.with_card(index, x).card_at(index) == x,
        hand.with_card(index, x).with_card(index, y).card_at(index) == y,
{
}

/// A swap takes one card out of the hand's cards and puts one in.
pub proof fn lemma_swap_exchanges_one_card(hand: HandEnum, index: HandCard, card: Card)
    ensures
        hand.with_card(index, card).cards().insert(hand.card_at(index)) == hand.cards().insert(
            card,
        ),
{
    assert(hand.with_card(index, card).cards().insert(hand.card_at(index)) =~= hand.cards().insert(
        card,
    ));
}

/// Putting back the card that a swap handed out restores the hand.
pub proof fn lemma_swap_back(hand: HandEnum, index: HandCard, card: Card)
    ensures
        hand.with_card(index, card).with_card(index, hand.card_at(index)) == hand,
{
}

} // verus!
