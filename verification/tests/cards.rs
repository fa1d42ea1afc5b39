use std::cmp::Ordering;
use thirty_one::{AllValues, Card, Suit, Value};

fn card(suit: Suit, value: Value) -> Card {
    Card { suit, value }
}

#[test]
fn suits_are_listed_in_rising_order() {
    assert_eq!(
        Suit::all_values(),
        vec![Suit::Clubs, Suit::Diamonds, Suit::Hearts, Suit::Spades]
    );
}

#[test]
fn suit_ranks_run_from_one_to_four() {
    assert_eq!(u8::from(Suit::Clubs), 1);
    assert_eq!(u8::from(Suit::Diamonds), 2);
    assert_eq!(u8::from(Suit::Hearts), 3);
    assert_eq!(u8::from(Suit::Spades), 4);
}

#[test]
fn suits_rise_from_clubs_to_spades() {
    assert!(Suit::Clubs < Suit::Diamonds);
    assert!(Suit::Diamonds < Suit::Hearts);
    assert!(Suit::Hearts < Suit::Spades);
    assert!(Suit::Clubs < Suit::Spades);
    assert!(Suit::Spades > Suit::Clubs);
    assert_eq!(Suit::Hearts.cmp(&Suit::Hearts), Ordering::Equal);
    assert_eq!(Suit::Hearts.cmp(&Suit::Diamonds), Ordering::Greater);
    assert_eq!(Suit::Clubs.partial_cmp(&Suit::Spades), Some(Ordering::Less));
}

#[test]
fn suit_order_is_total_on_every_pair() {
    let suits = Suit::all_values();
    for (i, a) in suits.iter().enumerate() {
        for (j, b) in suits.iter().enumerate() {
            assert_eq!(a.cmp(b), i.cmp(&j));
            assert_eq!(a.partial_cmp(b), Some(i.cmp(&j)));
        }
    }
}

#[test]
fn values_are_listed_from_ace_to_king() {
    assert_eq!(
        Value::all_values(),
        vec![
            Value::Ace,
            Value::Two,
            Value::Three,
            Value::Four,
            Value::Five,
            Value::Six,
            Value::Seven,
            Value::Eight,
            Value::Nine,
            Value::Ten,
            Value::Jack,
            Value::Queen,
            Value::King,
        ]
    );
}

#[test]
fn value_ranks_put_the_ace_on_top() {
    let ranks: Vec<u8> = Value::all_values().into_iter().map(u8::from).collect();
    assert_eq!(ranks, vec![14, 2, 3, 4, 5, 6, 7, 8, 9, 10, 11, 12, 13]);
}

#[test]
fn value_points_count_the_ace_eleven_and_court_cards_ten() {
    let points: Vec<u8> = Value::all_values().iter().map(|v| v.score()).collect();
    assert_eq!(points, vec![11, 2, 3, 4, 5, 6, 7, 8, 9, 10, 10, 10, 10]);
}

#[test]
fn ace_ranks_above_king() {
    assert!(Value::Ace > Value::King);
    assert!(Value::King < Value::Ace);
    assert!(Value::Two < Value::Three);
    assert!(Value::Ten < Value::Jack);
    assert!(Value::Jack < Value::Queen);
    assert!(Value::Queen < Value::King);
    assert_eq!(Value::Ace.cmp(&Value::Two), Ordering::Greater);
    assert_eq!(Value::Nine.cmp(&Value::Nine), Ordering::Equal);
}

#[test]
fn value_order_is_transitive_on_every_triple() {
    let values = Value::all_values();
    for a in values.iter() {
        for b in values.iter() {
            assert_eq!(a.cmp(b) == Ordering::Equal, a == b);
            assert_eq!(a.cmp(b) == Ordering::Less, b.cmp(a) == Ordering::Greater);
            for c in values.iter() {
                if a < b && b < c {
                    assert!(a < c);
                }
            }
        }
    }
}

#[test]
fn cards_compare_by_suit_before_value() {
    assert!(card(Suit::Clubs, Value::Ace) < card(Suit::Diamonds, Value::Two));
    assert!(card(Suit::Spades, Value::Two) > card(Suit::Hearts, Value::Ace));
    assert!(card(Suit::Hearts, Value::King) < card(Suit::Hearts, Value::Ace));
    assert!(card(Suit::Hearts, Value::Three) > card(Suit::Hearts, Value::Two));
    assert_eq!(
        card(Suit::Hearts, Value::Ten).cmp(&card(Suit::Hearts, Value::Ten)),
        Ordering::Equal
    );
    assert_eq!(
        card(Suit::Clubs, Value::Ten).partial_cmp(&card(Suit::Hearts, Value::Two)),
        Some(Ordering::Less)
    );
}

#[test]
fn cards_are_equal_when_suit_and_value_are() {
    assert_eq!(card(Suit::Clubs, Value::Ace), card(Suit::Clubs, Value::Ace));
    assert_ne!(card(Suit::Clubs, Value::Ace), card(Suit::Spades, Value::Ace));
    assert_ne!(card(Suit::Clubs, Value::Ace), card(Suit::Clubs, Value::Two));
}

#[test]
fn full_deck_has_fifty_two_distinct_cards() {
    let deck = Card::all_values();
    assert_eq!(deck.len(), 52);
    for (i, a) in deck.iter().enumerate() {
        for b in deck.iter().skip(i + 1) {
            assert_ne!(a, b);
        }
    }
}

#[test]
fn full_deck_runs_suit_by_suit() {
    let deck = Card::all_values();
    assert_eq!(deck[0], card(Suit::Clubs, Value::Ace));
    assert_eq!(deck[1], card(Suit::Clubs, Value::Two));
    assert_eq!(deck[12], card(Suit::Clubs, Value::King));
    assert_eq!(deck[13], card(Suit::Diamonds, Value::Ace));
    assert_eq!(deck[38], card(Suit::Hearts, Value::King));
    assert_eq!(deck[39], card(Suit::Spades, Value::Ace));
    assert_eq!(deck[51], card(Suit::Spades, Value::King));
    let suits = Suit::all_values();
    let values = Value::all_values();
    for (i, c) in deck.iter().enumerate() {
        assert_eq!(*c, card(suits[i / 13], values[i % 13]));
    }
}

#[test]
fn suit_labels_are_their_symbols() {
    assert_eq!(Suit::Clubs.display(), "♣");
    assert_eq!(Suit::Diamonds.display(), "♦");
    assert_eq!(Suit::Hearts.display(), "♥");
    assert_eq!(Suit::Spades.display(), "♠");
}

#[test]
fn value_labels_are_short_names() {
    let labels: Vec<String> = Value::all_values().iter().map(|v| v.display()).collect();
    assert_eq!(
        labels,
        vec!["A", "2", "3", "4", "5", "6", "7", "8", "9", "10", "J", "Q", "K"]
    );
}

#[test]
fn card_label_names_value_then_suit() {
    assert_eq!(card(Suit::Spades, Value::Ace).display(), "A of ♠");
    assert_eq!(card(Suit::Hearts, Value::Ten).display(), "10 of ♥");
    assert_eq!(card(Suit::Clubs, Value::Queen).display(), "Q of ♣");
}
