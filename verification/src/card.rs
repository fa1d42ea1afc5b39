//! Suits, face values and cards, with their orderings and labels.

use crate::order::{compare_ranks, order_of};
use std::cmp::Ordering;
use vstd::prelude::*;
use vstd::std_specs::cmp::PartialOrdSpecImpl;
use vstd::std_specs::convert::FromSpecImpl;
use vstd::string::StringExecFns;

verus! {

/// A type with a fixed, finite list of values.
pub trait AllValues: Sized {
    /// Every value of the type, in its canonical order.
    spec fn all() -> Seq<Self>;

    /// Builds the list `all()`.
    fn all_values() -> (items: Vec<Self>)
        ensures
            items@ == Self::all(),
    ;
}

/// One of the four suits. Clubs is lowest, Spades highest.
#[derive(Copy, Clone, Debug, PartialEq, Eq, Hash, Structural)]
pub enum Suit {
    Clubs,
    Diamonds,
    Hearts,
    Spades,
}

impl Suit {
    /// The number by which suits are ordered.
    pub open spec fn rank(self) -> u8 {
        match self {
            Suit::Clubs => 1,
            Suit::Diamonds => 2,
            Suit::Hearts => 3,
            Suit::Spades => 4,
        }
    }

    /// How `self` stands to `other`: by rank.
    pub open spec fn compare(self, other: Suit) -> Ordering {
        order_of(self.rank(), other.rank())
    }

    /// The symbol that stands for the suit in text.
    pub open spec fn label(self) -> Seq<char> {
        match self {
            Suit::Clubs => "♣"@,
            Suit::Diamonds => "♦"@,
            Suit::Hearts => "♥"@,
            Suit::Spades => "♠"@,
        }
    }

    /// Total order on suits.
    pub fn cmp(&self, other: &Suit) -> (o: Ordering)
        ensures
            o == self.compare(*other),
    {
        compare_ranks(u8::from(*self), u8::from(*other))
    }

    /// Renders the suit as its symbol.
    pub fn display(&self) -> (s: String)
        ensures
            s@ == self.label(),
    {
        match self {
            Suit::Clubs => String::from_str("♣"),
            Suit::Diamonds => String::from_str("♦"),
            Suit::Hearts => String::from_str("♥"),
            Suit::Spades => String::from_str("♠"),
        }
    }
}

impl AllValues for Suit {
    open spec fn all() -> Seq<Suit> {
        seq![Suit::Clubs, Suit::Diamonds, Suit::Hearts, Suit::Spades]
    }

    fn all_values() -> (items: Vec<Suit>) {
        let items = vec![Suit::Clubs, Suit::Diamonds, Suit::Hearts, Suit::Spades];
        assert(items@ =~= Suit::all());
        items
    }
}

impl From<Suit> for u8 {
    fn from(suit: Suit) -> (rank: u8) {
        match suit {
            Suit::Clubs => 1,
            Suit::Diamonds => 2,
            Suit::Hearts => 3,
            Suit::Spades => 4,
        }
    }
}

impl FromSpecImpl<Suit> for u8 {
    open spec fn obeys_from_spec() -> bool {
        true
    }

    open spec fn from_spec(suit: Suit) -> u8 {
        suit.rank()
    }
}

impl PartialOrd for Suit {
    fn partial_cmp(&self, other: &Suit) -> (o: Option<Ordering>) {
        Some(self.cmp(other))
    }
}

impl PartialOrdSpecImpl for Suit {
    open spec fn obeys_partial_cmp_spec() -> bool {
        true
    }

    open spec fn partial_cmp_spec(&self, other: &Suit) -> Option<Ordering> {
        Some(self.compare(*other))
    }
}

/// A face value. For ordering the Ace is high, above the King.
#[derive(Copy, Clone, Debug, PartialEq, Eq, Hash, Structural)]
pub enum Value {
    Ace,
    Two,
    Three,
    Four,
    Five,
    Six,
    Seven,
    Eight,
    Nine,
    Ten,
    Jack,
    Queen,
    King,
}

impl Value {
    /// The number by which values are ordered: two up to the King, then the Ace.
    pub open spec fn rank(self) -> u8 {
        match self {
            Value::Ace => 14,
            Value::Two => 2,
            Value::Three => 3,
            Value::Four => 4,
            Value::Five => 5,
            Value::Six => 6,
            Value::Seven => 7,
            Value::Eight => 8,
            Value::Nine => 9,
            Value::Ten => 10,
            Value::Jack => 11,
            Value::Queen => 12,
            Value::King => 13,
        }
    }

    /// The points that a card of this value adds to a hand: eleven for the Ace,
    /// ten for each court card, the face value otherwise.
    pub open spec fn points(self) -> u8 {
        match self {
            Value::Ace => 11,
            Value::Jack | Value::Queen | Value::King => 10,
            _ => self.rank(),
        }
    }

    /// How `self` stands to `other`: by rank.
    pub open spec fn compare(self, other: Value) -> Ordering {
        order_of(self.rank(), other.rank())
    }

    /// The short name of the value in text.
    pub open spec fn label(self) -> Seq<char> {
        match self {
            Value::Ace => "A"@,
            Value::Two => "2"@,
            Value::Three => "3"@,
            Value::Four => "4"@,
            Value::Five => "5"@,
            Value::Six => "6"@,
            Value::Seven => "7"@,
            Value::Eight => "8"@,
            Value::Nine => "9"@,
            Value::Ten => "10"@,
            Value::Jack => "J"@,
            Value::Queen => "Q"@,
            Value::King => "K"@,
        }
    }

    /// Total order on values, Ace high.
    pub fn cmp(&self, other: &Value) -> (o: Ordering)
        ensures
            o == self.compare(*other),
    {
        compare_ranks(u8::from(*self), u8::from(*other))
    }

    /// The points that a card of this value adds to a hand.
    pub fn score(&self) -> (points: u8)
        ensures
            points == self.points(),
    {
        match *self {
            Value::Ace => 11,
            Value::Two => 2,
            Value::Three => 3,
            Value::Four => 4,
            Value::Five => 5,
            Value::Six => 6,
            Value::Seven => 7,
            Value::Eight => 8,
            Value::Nine => 9,
            Value::Ten => 10,
            Value::Jack => 10,
            Value::Queen => 10,
            Value::King => 10,
        }
    }

    /// Renders the value as its short name.
    pub fn display(&self) -> (s: String)
        ensures
            s@ == self.label(),
    {
        match self {
            Value::Ace => String::from_str("A"),
            Value::Two => String::from_str("2"),
            Value::Three => String::from_str("3"),
            Value::Four => String::from_str("4"),
            Value::Five => String::from_str("5"),
            Value::Six => String::from_str("6"),
            Value::Seven => String::from_str("7"),
            Value::Eight => String::from_str("8"),
            Value::Nine => String::from_str("9"),
            Value::Ten => String::from_str("10"),
            Value::Jack => String::from_str("J"),
            Value::Queen => String::from_str("Q"),
            Value::King => String::from_str("K"),
        }
    }
}

impl AllValues for Value {
    open spec fn all() -> Seq<Value> {
        seq![
            Value::Ace,
            Value::Two,
            Value::Three,
            Value::Four,
            Value::Five,
            Value::Six,
            Value::Seven,
            Value::Eight,
            Value::Nine,
            Value::Ten,
            Value::Jack,
            Value::Queen,
            Value::King,
        ]
    }

    fn all_values() -> (items: Vec<Value>) {
        let items = vec![
            Value::Ace,
            Value::Two,
            Value::Three,
            Value::Four,
            Value::Five,
            Value::Six,
            Value::Seven,
            Value::Eight,
            Value::Nine,
            Value::Ten,
            Value::Jack,
            Value::Queen,
            Value::King,
        ];
        assert(items@ =~= Value::all());
        items
    }
}

impl From<Value> for u8 {
    fn from(value: Value) -> (rank: u8) {
        match value {
            Value::Ace => 14,
            Value::Two => 2,
            Value::Three => 3,
            Value::Four => 4,
            Value::Five => 5,
            Value::Six => 6,
            Value::Seven => 7,
            Value::Eight => 8,
            Value::Nine => 9,
            Value::Ten => 10,
            Value::Jack => 11,
            Value::Queen => 12,
            Value::King => 13,
        }
    }
}

impl FromSpecImpl<Value> for u8 {
    open spec fn obeys_from_spec() -> bool {
        true
    }

    open spec fn from_spec(value: Value) -> u8 {
        value.rank()
    }
}

impl PartialOrd for Value {
    fn partial_cmp(&self, other: &Value) -> (o: Option<Ordering>) {
        Some(self.cmp(other))
    }
}

impl PartialOrdSpecImpl for Value {
    open spec fn obeys_partial_cmp_spec() -> bool {
        true
    }

    open spec fn partial_cmp_spec(&self, other: &Value) -> Option<Ordering> {
        Some(self.compare(*other))
    }
}

/// A playing card. Cards are ordered by suit, then by value.
#[derive(Copy, Clone, Debug, PartialEq, Eq, Hash, Structural)]
pub struct Card {
    pub suit: Suit,
    pub value: Value,
}

impl Card {
    /// How `self` stands to `other`: the suits decide, and the values where the
    /// suits are the same.
    pub open spec fn compare(self, other: Card) -> Ordering {
        match self.suit.compare(other.suit) {
            Ordering::Equal => self.value.compare(other.value),
            decided => decided,
        }
    }

    /// The card's name in text: its value, " of ", its suit.
    pub open spec fn label(self) -> Seq<char> {
        self.value.label() + " of "@ + self.suit.label()
    }

    /// Total order on cards.
    pub fn cmp(&self, other: &Card) -> (o: Ordering)
        ensures
            o == self.compare(*other),
    {
        match self.suit.cmp(&other.suit) {
            Ordering::Equal => self.value.cmp(&other.value),
            decided => decided,
        }
    }

    /// Renders the card as its name.
    pub fn display(&self) -> (s: String)
        ensures
            s@ == self.label(),
    {
        let mut s = self.value.display();
        s.append(" of ");
        let suit = self.suit.display();
        s.append(suit.as_str());
        s
    }
}

impl AllValues for Card {
    /// The full deck of fifty-two cards: suit by suit, and within a suit value
    /// by value, thirteen to a suit.
    open spec fn all() -> Seq<Card> {
        Seq::new(52, |i: int| Card { suit: Suit::all()[i / 13], value: Value::all()[i % 13] })
    }

    fn all_values() -> (deck: Vec<Card>) {
        let suits = Suit::all_values();
        let values = Value::all_values();
        let mut deck: Vec<Card> = Vec::new();
        assert(Suit::all().len() == 4 && Value::all().len() == 13);
        let mut i: usize = 0;
        while i < suits.len()
            invariant
                suits@ == Suit::all(),
                values@ == Value::all(),
                suits.len() == 4,
                values.len() == 13,
                i <= suits.len(),
                deck@ == Card::all().take(i * values.len()),
            decreases suits.len() - i,
        {
            let mut j: usize = 0;
            while j < values.len()
                invariant
                    suits@ == Suit::all(),
                    values@ == Value::all(),
                    suits.len() == 4,
                    values.len() == 13,
                    i < suits.len(),
                    j <= values.len(),
                    deck@ == Card::all().take(i * values.len() + j),
                decreases values.len() - j,
            {
                deck.push(Card { suit: suits[i], value: values[j] });
                proof {
                    let k = i * 13 + j;
                    assert(k / 13 == i && k % 13 == j);
                    assert(Card::all()[k] == Card { suit: Suit::all()[k / 13], value: Value::all()[k % 13] });
                    assert(deck@ =~= Card::all().take(k + 1));
                }
                j += 1;
            }
            i += 1;
        }
        assert(deck@ =~= Card::all());
        deck
    }
}

impl PartialOrd for Card {
    fn partial_cmp(&self, other: &Card) -> (o: Option<Ordering>) {
        Some(self.cmp(other))
    }
}

impl PartialOrdSpecImpl for Card {
    open spec fn obeys_partial_cmp_spec() -> bool {
        true
    }

    open spec fn partial_cmp_spec(&self, other: &Card) -> Option<Ordering> {
        Some(self.compare(*other))
    }
}

/// Suits stand in the order Clubs, Diamonds, Hearts, Spades, and that order is
/// total and transitive.
pub proof fn lemma_suit_order_is_total(a: Suit, b: Suit, c: Suit)
    ensures
        Suit::Clubs.compare(Suit::Diamonds) == Ordering::Less,
        Suit::Diamonds.compare(Suit::Hearts) == Ordering::Less,
        Suit::Hearts.compare(Suit::Spades) == Ordering::Less,
        a.compare(b) == Ordering::Less <==> b.compare(a) == Ordering::Greater,
        a.compare(b) == Ordering::Equal <==> a == b,
        a.compare(b) == Ordering::Less && b.compare(c) == Ordering::Less ==> a.compare(c)
            == Ordering::Less,
{
}

/// The order of values is total and transitive, and the Ace stands above every
/// other value, the King included.
pub proof fn lemma_value_order_is_total(a: Value, b: Value, c: Value)
    ensures
        Value::King.compare(Value::Ace) == Ordering::Less,
        a != Value::Ace ==> a.compare(Value::Ace) == Ordering::Less,
        a.compare(b) == Ordering::Less <==> b.compare(a) == Ordering::Greater,
        a.compare(b) == Ordering::Equal <==> a == b,
        a.compare(b) == Ordering::Less && b.compare(c) == Ordering::Less ==> a.compare(c)
            == Ordering::Less,
{
}

/// In points the Ace counts eleven and no value counts more, though in the
/// order of values it stands highest with rank fourteen.
pub proof fn lemma_ace_counts_eleven(a: Value)
    ensures
        Value::Ace.points() == 11,
        Value::Ace.rank() == 14,
        2 <= a.points() <= 11,
        a.rank() <= 14,
{
}

/// The order of cards is total and transitive, and the suit decides before the
/// value does.
pub proof fn lemma_card_order_is_total(a: Card, b: Card, c: Card)
    ensures
        a.suit.compare(b.suit) != Ordering::Equal ==> a.compare(b) == a.suit.compare(b.suit),
        a.suit == b.suit ==> a.compare(b) == a.value.compare(b.value),
        a.compare(b) == Ordering::Less <==> b.compare(a) == Ordering::Greater,
        a.compare(b) == Ordering::Equal <==> a == b,
        a.compare(b) == Ordering::Less && b.compare(c) == Ordering::Less ==> a.compare(c)
            == Ordering::Less,
{
}

} // verus!
