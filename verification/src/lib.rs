//! Single-player blackjack: cards, hand scoring, round outcome and the round
//! state machine, with machine-checked contracts.

pub mod card;
pub mod catalog;
pub mod decimal;
pub mod display;
pub mod outcome;
pub mod round;
pub mod scoring;
pub mod text;
