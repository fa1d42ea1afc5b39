//! The state of a game, and the deal that starts a round.

use crate::card::{AllValues, Card};
use crate::deck::{full_deck, is_full_deck};
use crate::hand::HandEnum;
use crate::turn::Turn;
use crate::ui::UIContext;
use rand::{Rng, StdRng};
use vstd::multiset::Multiset;
use vstd::prelude::*;

verus! {

/// The standard generator of the `rand` crate. The state owns one and carries
/// it through; nothing here looks inside it.
#[verifier::external_type_specification]
#[verifier::external_body]
pub struct ExStdRng(StdRng);

/// The most computer players that one deck can serve: each participant takes
/// three cards, and one card opens the pile.
pub const MAX_CPU_PLAYERS: usize = 16;

/// Everything that a game in progress consists of. The back of `deck` is the
/// next card to be drawn; the back of `pile` is the latest discard.
pub struct State {
    pub rng: StdRng,
    pub title_screen: bool,
    pub deck: Vec<Card>,
    pub pile: Vec<Card>,
    pub player: HandEnum,
    pub cpu_players: Vec<HandEnum>,
    pub turn: Turn,
    pub turn_count: u32,
    pub summary: String,
    pub ui_context: UIContext,
}

/// The cards of all the given hands together.
pub open spec fn hands_cards(hands: Seq<HandEnum>) -> Multiset<Card>
    decreases hands.len(),
{
    if hands.len() == 0 {
        Multiset::empty()
    } else {
        hands_cards(hands.drop_last()).add(hands.last().cards())
    }
}

/// The cards that a deal takes from the deck for the player, `cpu_count`
/// computer players and the pile.
pub open spec fn cards_needed(cpu_count: nat) -> nat {
    3 * (cpu_count + 1) + 1
}

/// The `k`-th hand dealt from the back of `order`, counted from zero: the
/// three cards drawn after `3 * k` others, in the order in which they are
/// drawn.
pub open spec fn dealt_hand(order: Seq<Card>, k: int) -> HandEnum {
    let top = order.len() - 3 * k;
    HandEnum::Hand(order[top - 1], order[top - 2], order[top - 3])
}

impl State {
    /// All the cards in play: those of the deck, the pile, the player's hand
    /// and the computer players' hands.
    pub open spec fn cards(self) -> Multiset<Card> {
        self.deck@.to_multiset().add(self.pile@.to_multiset()).add(self.player.cards()).add(
            hands_cards(self.cpu_players@),
        )
    }

    /// Whether the cards in play are exactly one standard deck.
    pub open spec fn holds_full_deck(self) -> bool {
        self.cards() == full_deck()
    }

    /// Whether nothing has happened yet: the player is to act, nobody has
    /// knocked, no turn is counted, the summary is empty and no widget is hot
    /// or active.
    pub open spec fn is_fresh(self) -> bool {
        &&& self.turn == Turn::PlayerTurn(None)
        &&& self.turn_count == 0
        &&& self.summary@ == Seq::<char>::empty()
        &&& self.ui_context.hot == 0
        &&& self.ui_context.active == 0
        &&& self.ui_context.next_hot == 0
    }

    /// Whether the cards lie as a deal from `order` to `cpu_count` computer
    /// players leaves them: the player has the first hand from the back of
    /// `order`, the computer players the next ones in turn, the card after
    /// those opens the pile, and the rest is the deck, in its order.
    pub open spec fn dealt_from(self, order: Seq<Card>, cpu_count: nat) -> bool {
        let rest = order.len() - 3 * (cpu_count + 1);
        &&& self.player == dealt_hand(order, 0)
        &&& self.cpu_players@.len() == cpu_count
        &&& forall|i: int|
            0 <= i < cpu_count ==> #[trigger] self.cpu_players@[i] == dealt_hand(order, i + 1)
        &&& self.pile@ == seq![order[rest - 1]]
        &&& self.deck@ == order.take(rest - 1)
    }

    /// Deals a round from the cards of `order`, drawing from its back: three
    /// cards to the player, three to each of `cpu_count` computer players, one
    /// to open the pile. Returns `None` where `order` has too few cards for
    /// that.
    pub fn deal_from(rng: StdRng, title_screen: bool, order: Vec<Card>, cpu_count: usize) -> (dealt:
        Option<State>)
        ensures
            dealt is Some <==> cards_needed(cpu_count as nat) <= order@.len(),
            dealt matches Some(state) ==> {
                &&& state.dealt_from(order@, cpu_count as nat)
                &&& state.cards() == order@.to_multiset()
                &&& state.is_fresh()
                &&& state.title_screen == title_screen
                &&& state.rng == rng
            },
    {
        let ghost sequence = order@;
        let mut deck = order;
        if deck.len() < 4 || cpu_count > (deck.len() - 4) / 3 {
            return None;
        }
        let player = draw_hand(&mut deck);
        let mut cpu_players: Vec<HandEnum> = Vec::new();
        let mut i: usize = 0;
        while i < cpu_count
            invariant
                i <= cpu_count,
                cards_needed(cpu_count as nat) <= sequence.len(),
                player == dealt_hand(sequence, 0),
                cpu_players@.len() == i,
                forall|k: int|
                    0 <= k < i ==> #[trigger] cpu_players@[k] == dealt_hand(sequence, k + 1),
                deck@ == sequence.take(sequence.len() - 3 * (i + 1)),
                deck@.to_multiset().add(player.cards()).add(hands_cards(cpu_players@))
                    == sequence.to_multiset(),
            decreases cpu_count - i,
        {
            let ghost before = cpu_players@;
            let hand = draw_hand(&mut deck);
            cpu_players.push(hand);
            proof {
                assert(cpu_players@.drop_last() =~= before);
                assert(deck@ =~= sequence.take(sequence.len() - 3 * (i + 2)));
                assert(deck@.to_multiset().add(player.cards()).add(hands_cards(cpu_players@))
                    =~= sequence.to_multiset());
            }
            i += 1;
        }
        let ghost before = deck@;
        let top = draw(&mut deck);
        let mut pile: Vec<Card> = Vec::new();
        pile.push(top);
        let state = State {
            rng,
            title_screen,
            deck,
            pile,
            player,
            cpu_players,
            turn: Turn::PlayerTurn(None),
            turn_count: 0,
            summary: String::new(),
            ui_context: UIContext::new(),
        };
        proof {
            broadcast use vstd::seq_lib::group_to_multiset_ensures;

            assert(state.pile@ =~= Seq::<Card>::empty().push(top));
            assert(state.deck@ =~= sequence.take(sequence.len() - 3 * (cpu_count + 1) - 1));
            assert(state.cards() =~= sequence.to_multiset());
        }
        Some(state)
    }

    /// Deals a round from a freshly shuffled standard deck, to the player and
    /// `cpu_count` computer players. Returns `None` where one deck does not
    /// serve that many.
    pub fn deal(rng: StdRng, title_screen: bool, cpu_count: usize) -> (dealt: Option<State>)
        ensures
            dealt is Some <==> cpu_count <= MAX_CPU_PLAYERS,
            dealt matches Some(state) ==> {
                &&& state.holds_full_deck()
                &&& exists|order: Seq<Card>|
                    order.to_multiset() == full_deck() && #[trigger] state.dealt_from(
                        order,
                        cpu_count as nat,
                    )
                &&& state.cpu_players@.len() == cpu_count
                &&& state.pile@.len() == 1
                &&& state.deck@.len() + cards_needed(cpu_count as nat) == Card::all().len()
                &&& state.is_fresh()
                &&& state.title_screen == title_screen
            },
    {
        let mut rng = rng;
        let mut order = Card::all_values();
        shuffle_cards(&mut rng, &mut order);
        proof {
            broadcast use vstd::seq_lib::group_to_multiset_ensures;

            assert(order@.len() == order@.to_multiset().len());
            assert(Card::all().len() == Card::all().to_multiset().len());
        }
        State::deal_from(rng, title_screen, order, cpu_count)
    }

    /// Tells whether the cards in play are exactly one standard deck: the
    /// invariant that every round must keep.
    pub fn has_full_deck(&self) -> (full: bool)
        ensures
            full == self.holds_full_deck(),
    {
        let mut all: Vec<Card> = Vec::new();
        append_cards(&mut all, &self.deck);
        append_cards(&mut all, &self.pile);
        append_hand(&mut all, &self.player);
        proof {
            broadcast use vstd::seq_lib::lemma_multiset_commutative;

            assert(Seq::<Card>::empty() + self.deck@ =~= self.deck@);
        }
        let mut k: usize = 0;
        while k < self.cpu_players.len()
            invariant
                k <= self.cpu_players@.len(),
                all@.to_multiset() == self.deck@.to_multiset().add(self.pile@.to_multiset()).add(
                    self.player.cards(),
                ).add(hands_cards(self.cpu_players@.take(k as int))),
            decreases self.cpu_players@.len() - k,
        {
            append_hand(&mut all, &self.cpu_players[k]);
            proof {
                let served = self.cpu_players@.take(k + 1);
                assert(served.drop_last() =~= self.cpu_players@.take(k as int));
                assert(served.last() == self.cpu_players@[k as int]);
                assert(all@.to_multiset() =~= self.deck@.to_multiset().add(
                    self.pile@.to_multiset(),
                ).add(self.player.cards()).add(hands_cards(served)));
            }
            k += 1;
        }
        assert(self.cpu_players@.take(k as int) =~= self.cpu_players@);
        is_full_deck(&all)
    }
}

/// Appends the cards of `more` to `all`, in their order.
fn append_cards(all: &mut Vec<Card>, more: &Vec<Card>)
    ensures
        final(all)@ == old(all)@ + more@,
{
    let mut i: usize = 0;
    while i < more.len()
        invariant
            i <= more@.len(),
            all@ == old(all)@ + more@.take(i as int),
        decreases more@.len() - i,
    {
        all.push(more[i]);
        assert(all@ =~= old(all)@ + more@.take(i + 1));
        i += 1;
    }
    assert(all@ =~= old(all)@ + more@);
}

/// Appends the three cards of `hand` to `all`.
fn append_hand(all: &mut Vec<Card>, hand: &HandEnum)
    ensures
        final(all)@.to_multiset() == old(all)@.to_multiset().add(hand.cards()),
{
    match hand {
        HandEnum::Hand(c1, c2, c3) => {
            all.push(*c1);
            all.push(*c2);
            all.push(*c3);
        },
    }
    proof {
        broadcast use vstd::seq_lib::group_to_multiset_ensures;

        assert(all@.to_multiset() =~= old(all)@.to_multiset().add(hand.cards()));
    }
}

/// Takes the card at the back of `deck`.
fn draw(deck: &mut Vec<Card>) -> (card: Card)
    requires
        old(deck)@.len() > 0,
    ensures
        card == old(deck)@.last(),
        final(deck)@ == old(deck)@.drop_last(),
        old(deck)@.to_multiset() == final(deck)@.to_multiset().insert(card),
{
    let drawn = deck.pop();
    proof {
        broadcast use vstd::seq_lib::group_to_multiset_ensures;

        assert(deck@ =~= old(deck)@.drop_last());
        assert(old(deck)@ =~= deck@.push(old(deck)@.last()));
    }
    drawn.unwrap()
}

/// Takes three cards from the back of `deck` and makes a hand of them, in the
/// order in which they are drawn.
fn draw_hand(deck: &mut Vec<Card>) -> (hand: HandEnum)
    requires
        old(deck)@.len() >= 3,
    ensures
        hand == dealt_hand(old(deck)@, 0),
        final(deck)@ == old(deck)@.take(old(deck)@.len() - 3),
        old(deck)@.to_multiset() == final(deck)@.to_multiset().add(hand.cards()),
{
    let c1 = draw(deck);
    let c2 = draw(deck);
    let c3 = draw(deck);
    let hand = HandEnum::Hand(c1, c2, c3);
    proof {
        assert(deck@ =~= old(deck)@.take(old(deck)@.len() - 3));
        assert(old(deck)@.to_multiset() =~= deck@.to_multiset().add(hand.cards()));
    }
    hand
}

/// Calls `rand::Rng::shuffle` on the generator and the cards. That function
/// walks the slice from its back and exchanges each card with one at a random
/// place at or before it; it neither adds nor drops a card. The contract says
/// that much and leaves the order open.
#[verifier::external_body]
fn shuffle_cards(rng: &mut StdRng, cards: &mut Vec<Card>)
    ensures
        final(cards)@.to_multiset() == old(cards)@.to_multiset(),
{
    rng.shuffle(cards.as_mut_slice());
}

} // verus!
