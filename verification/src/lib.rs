//! Rules engine for a three-card "Thirty-One" game: cards and their orderings,
//! hand scoring, the turn model, the dealt game state, and the small pieces of
//! geometry, input and widget tracking that a front end shares with it.

pub mod card;
pub mod color;
pub mod deck;
pub mod geometry;
pub mod hand;
pub mod input;
pub mod order;
pub mod score;
pub mod state;
pub mod text;
pub mod turn;
pub mod ui;

pub use card::{AllValues, Card, Suit, Value};
pub use color::Color;
pub use geometry::{Point, Rect, Size};
pub use hand::{HandCard, HandEnum};
pub use input::{Event, KeyCode};
pub use score::{score_cards, Score};
pub use state::State;
pub use turn::{KnockerOrWinner, Participant, Turn};
pub use ui::{UIContext, UiId};
