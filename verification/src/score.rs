//! Scoring of three cards, and the order in which scores rank.

use crate::card::{Card, Suit, Value};
use crate::order::{compare_ranks, order_of};
use crate::text::{decimal, push_decimal};
use std::cmp::Ordering;
use vstd::prelude::*;
use vstd::std_specs::cmp::PartialOrdSpecImpl;
use vstd::string::StringExecFns;

verus! {

/// What a hand is worth. `ThirtyAndAHalf` is three of a kind; it ranks between
/// thirty and thirty-one points.
#[derive(Copy, Clone, Debug, PartialEq, Eq, Hash, Structural)]
pub enum Score {
    ThirtyAndAHalf,
    Simple(u8),
}

/// The points that `card` adds to the total of `suit`: its own points where it
/// is of that suit, nothing otherwise.
pub open spec fn points_in(card: Card, suit: Suit) -> int {
    if card.suit == suit {
        card.value.points() as int
    } else {
        0
    }
}

/// The points that the three cards hold in `suit`.
pub open spec fn suit_total(c1: Card, c2: Card, c3: Card, suit: Suit) -> int {
    points_in(c1, suit) + points_in(c2, suit) + points_in(c3, suit)
}

/// The larger of two integers.
pub open spec fn larger(a: int, b: int) -> int {
    if a >= b {
        a
    } else {
        b
    }
}

/// The best total that the three cards reach in a single suit.
pub open spec fn best_total(c1: Card, c2: Card, c3: Card) -> int {
    larger(
        larger(suit_total(c1, c2, c3, Suit::Clubs), suit_total(c1, c2, c3, Suit::Diamonds)),
        larger(suit_total(c1, c2, c3, Suit::Hearts), suit_total(c1, c2, c3, Suit::Spades)),
    )
}

/// The score of three cards: `ThirtyAndAHalf` where the three values are the
/// same, whatever the suits; otherwise the best single-suit total.
pub open spec fn score_of(c1: Card, c2: Card, c3: Card) -> Score {
    if c1.value == c2.value && c2.value == c3.value {
        Score::ThirtyAndAHalf
    } else {
        Score::Simple(best_total(c1, c2, c3) as u8)
    }
}

/// The points of `card` where it is of `suit`, zero otherwise.
fn points_of_suit(card: &Card, suit: Suit) -> (points: u8)
    ensures
        points == points_in(*card, suit),
        points <= 11,
{
    if card.suit == suit {
        card.value.score()
    } else {
        0
    }
}

/// The total of the three cards in `suit`.
fn total_of_suit(c1: &Card, c2: &Card, c3: &Card, suit: Suit) -> (total: u8)
    ensures
        total == suit_total(*c1, *c2, *c3, suit),
        total <= 33,
{
    points_of_suit(c1, suit) + points_of_suit(c2, suit) + points_of_suit(c3, suit)
}

/// The larger of two totals.
fn larger_of(a: u8, b: u8) -> (m: u8)
    ensures
        m == larger(a as int, b as int),
{
    if a >= b {
        a
    } else {
        b
    }
}

/// Scores three cards.
pub fn score_cards(c1: &Card, c2: &Card, c3: &Card) -> (score: Score)
    ensures
        score == score_of(*c1, *c2, *c3),
{
    if c1.value == c2.value && c2.value == c3.value {
        Score::ThirtyAndAHalf
    } else {
        let clubs = total_of_suit(c1, c2, c3, Suit::Clubs);
        let diamonds = total_of_suit(c1, c2, c3, Suit::Diamonds);
        let hearts = total_of_suit(c1, c2, c3, Suit::Hearts);
        let spades = total_of_suit(c1, c2, c3, Suit::Spades);
        Score::Simple(larger_of(larger_of(clubs, diamonds), larger_of(hearts, spades)))
    }
}

impl Score {
    /// How `self` stands to `other`. Two point scores stand as their points do.
    /// `ThirtyAndAHalf` is above every point score up to thirty and below every
    /// one over thirty.
    pub open spec fn compare(self, other: Score) -> Ordering {
        match (self, other) {
            (Score::ThirtyAndAHalf, Score::ThirtyAndAHalf) => Ordering::Equal,
            (Score::ThirtyAndAHalf, Score::Simple(x)) => if x > 30 {
                Ordering::Less
            } else {
                Ordering::Greater
            },
            (Score::Simple(x), Score::ThirtyAndAHalf) => if x > 30 {
                Ordering::Greater
            } else {
                Ordering::Less
            },
            (Score::Simple(x1), Score::Simple(x2)) => order_of(x1, x2),
        }
    }

    /// Where the score lies on a line of half points: twice the points, and
    /// sixty-one for `ThirtyAndAHalf`.
    pub open spec fn half_points(self) -> int {
        match self {
            Score::ThirtyAndAHalf => 61,
            Score::Simple(x) => 2 * x,
        }
    }

    /// The score in text.
    pub open spec fn label(self) -> Seq<char> {
        match self {
            Score::ThirtyAndAHalf => "30½"@ + " points"@,
            Score::Simple(x) => decimal(x as nat) + " points"@,
        }
    }

    /// Total order on scores.
    pub fn cmp(&self, other: &Score) -> (o: Ordering)
        ensures
            o == self.compare(*other),
    {
        match (*self, *other) {
            (Score::ThirtyAndAHalf, Score::ThirtyAndAHalf) => Ordering::Equal,
            (Score::ThirtyAndAHalf, Score::Simple(x)) => if x > 30 {
                Ordering::Less
            } else {
                Ordering::Greater
            },
            (Score::Simple(x), Score::ThirtyAndAHalf) => if x > 30 {
                Ordering::Greater
            } else {
                Ordering::Less
            },
            (Score::Simple(x1), Score::Simple(x2)) => compare_ranks(x1, x2),
        }
    }

    /// Renders the score, followed by the word "points".
    pub fn display(&self) -> (s: String)
        ensures
            s@ == self.label(),
    {
        let mut s = String::new();
        match *self {
            Score::ThirtyAndAHalf => {
                s.append("30½");
            },
            Score::Simple(x) => {
                push_decimal(&mut s, x.into());
            },
        }
        s.append(" points");
        assert(s@ =~= self.label());
        s
    }
}

impl PartialOrd for Score {
    fn partial_cmp(&self, other: &Score) -> (o: Option<Ordering>) {
        Some(self.cmp(other))
    }
}

impl PartialOrdSpecImpl for Score {
    open spec fn obeys_partial_cmp_spec() -> bool {
        true
    }

    open spec fn partial_cmp_spec(&self, other: &Score) -> Option<Ordering> {
        Some(self.compare(*other))
    }
}

/// The score of three cards does not depend on the order in which they are
/// given.
pub proof fn lemma_score_ignores_card_order(c1: Card, c2: Card, c3: Card)
    ensures
        score_of(c1, c3, c2) == score_of(c1, c2, c3),
        score_of(c2, c1, c3) == score_of(c1, c2, c3),
        score_of(c2, c3, c1) == score_of(c1, c2, c3),
        score_of(c3, c1, c2) == score_of(c1, c2, c3),
        score_of(c3, c2, c1) == score_of(c1, c2, c3),
{
}

/// Three cards of one value score `ThirtyAndAHalf`, whatever their suits.
pub proof fn lemma_three_of_a_kind(value: Value, s1: Suit, s2: Suit, s3: Suit)
    ensures
        score_of(
            Card { suit: s1, value },
            Card { suit: s2, value },
            Card { suit: s3, value },
        ) == Score::ThirtyAndAHalf,
{
}

/// Ace, King and Queen of one suit score thirty-one points.
pub proof fn lemma_ace_king_queen_of_a_suit(suit: Suit)
    ensures
        score_of(
            Card { suit, value: Value::Ace },
            Card { suit, value: Value::King },
            Card { suit, value: Value::Queen },
        ) == Score::Simple(31),
{
}

/// A point score is the best single-suit total itself: that total is at most
/// thirty-two, so it fits the score. It exceeds thirty only where the three
/// cards are of one suit, and thirty-one only where a card is repeated.
pub proof fn lemma_point_scores_are_bounded(c1: Card, c2: Card, c3: Card)
    requires
        !(c1.value == c2.value && c2.value == c3.value),
    ensures
        1 < best_total(c1, c2, c3) <= 32,
        score_of(c1, c2, c3) == Score::Simple(best_total(c1, c2, c3) as u8),
        best_total(c1, c2, c3) > 30 ==> c1.suit == c2.suit && c2.suit == c3.suit,
        best_total(c1, c2, c3) > 31 ==> c1 == c2 || c2 == c3 || c1 == c3,
{
}

/// Where `ThirtyAndAHalf` stands among the point scores: below every score over
/// thirty, above every score up to thirty, and level with itself alone.
pub proof fn lemma_thirty_and_a_half_boundary(score: Score)
    ensures
        score matches Score::Simple(x) && x >= 31 ==> score.compare(Score::ThirtyAndAHalf)
            == Ordering::Greater && Score::ThirtyAndAHalf.compare(score) == Ordering::Less,
        score matches Score::Simple(x) && x <= 30 ==> score.compare(Score::ThirtyAndAHalf)
            == Ordering::Less && Score::ThirtyAndAHalf.compare(score) == Ordering::Greater,
        score.compare(Score::ThirtyAndAHalf) == Ordering::Equal <==> score
            == Score::ThirtyAndAHalf,
        Score::ThirtyAndAHalf.compare(score) == Ordering::Equal <==> score
            == Score::ThirtyAndAHalf,
{
}

/// The order of scores is the order of their places on the line of half
/// points.
pub proof fn lemma_score_order_follows_half_points(a: Score, b: Score)
    ensures
        a.compare(b) == Ordering::Less <==> a.half_points() < b.half_points(),
        a.compare(b) == Ordering::Equal <==> a == b,
        a.compare(b) == Ordering::Greater <==> a.half_points() > b.half_points(),
{
}

/// The order of scores is total and transitive.
pub proof fn lemma_score_order_is_total(a: Score, b: Score, c: Score)
    ensures
        a.compare(b) == Ordering::Less <==> b.compare(a) == Ordering::Greater,
        a.compare(b) == Ordering::Equal <==> a == b,
        a.compare(b) == Ordering::Less && b.compare(c) == Ordering::Less ==> a.compare(c)
            == Ordering::Less,
{
    lemma_score_order_follows_half_points(a, b);
    lemma_score_order_follows_half_points(b, a);
    lemma_score_order_follows_half_points(b, c);
    lemma_score_order_follows_half_points(a, c);
}

} // verus!
