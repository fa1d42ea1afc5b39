//! Who takes part in a round, and the phase that the round is in.

use crate::card::Card;
use crate::text::{decimal, push_decimal};
use vstd::prelude::*;
use vstd::string::StringExecFns;

verus! {

/// Someone at the table: the human player, or one of the computer players by
/// its place in their list.
#[derive(Copy, Clone, PartialEq, Eq, Debug, Structural)]
pub enum Participant {
    Player,
    Cpu(usize),
}

impl Participant {
    /// The participant's name in text: "You" for the player, "Cpu " and its
    /// number for a computer player.
    pub open spec fn label(self) -> Seq<char> {
        match self {
            Participant::Player => "You"@,
            Participant::Cpu(i) => "Cpu "@ + decimal(i as nat),
        }
    }

    /// Renders the participant's name.
    pub fn display(&self) -> (s: String)
        ensures
            s@ == self.label(),
    {
        match *self {
            Participant::Player => String::from_str("You"),
            Participant::Cpu(i) => {
                let mut s = String::from_str("Cpu ");
                push_decimal(&mut s, i as u64);
                s
            },
        }
    }
}

/// Marks a participant as the one who knocked or as the one who won.
#[derive(Copy, Clone, PartialEq, Eq, Debug, Structural)]
pub enum KnockerOrWinner {
    Knocker(Participant),
    Winner(Participant),
}

/// The phase of a round.
#[derive(Copy, Clone)]
pub enum Turn {
    /// The player is to act. Holds the participant who has knocked, if any.
    PlayerTurn(Option<Participant>),
    /// The player has picked a card and has yet to say where it goes. Holds
    /// the card, and the participant who has knocked, if any.
    PlayerSelected(Card, Option<Participant>),
    /// A computer player is to act. Holds the participant who has knocked, if
    /// any.
    CpuTurn(Option<Participant>),
    /// A computer player has acted. Holds who knocked or who won, if anyone.
    CpuSummary(Option<KnockerOrWinner>),
    /// The round is over. Holds the winner, if there is one.
    Resolution(Option<Participant>),
}

} // verus!
