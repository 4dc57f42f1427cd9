//! Playing cards: a rank and a pip value.

use crate::decimal::{decimal, decimal_string};
use vstd::prelude::*;

verus! {

/// The kind of a card. Every numbered card (two to ten) is `Normal`.
#[derive(Debug, PartialEq, Eq, Clone, Copy, Structural)]
pub enum PCardType {
    Ace,
    Jack,
    Queen,
    King,
    Normal,
}

/// An immutable card: its kind and its pip value.
///
/// For a `Normal` card the value is the number printed on it. Scoring never
/// reads the value of an ace.
#[derive(Debug, PartialEq, Eq, Clone, Copy, Structural)]
pub struct PlayCard {
    pub value: u8,
    pub c_type: PCardType,
}

/// How a card is called: an ace, a jack, a queen and a king by their names,
/// a numbered card by its value in decimal notation.
pub open spec fn card_name(card: PlayCard) -> Seq<char> {
    match card.c_type {
        PCardType::Ace => "Ace"@,
        PCardType::Jack => "Jack"@,
        PCardType::Queen => "Queen"@,
        PCardType::King => "King"@,
        PCardType::Normal => decimal(card.value as nat),
    }
}

impl PlayCard {
    /// Makes a card of the given value and kind.
    pub fn new(value: u8, c_type: PCardType) -> (card: PlayCard)
        ensures
            card == (PlayCard { value, c_type }),
    {
        PlayCard { value, c_type }
    }

    /// The card's name.
    pub fn stringify(&self) -> (name: String)
        ensures
            name@ == card_name(*self),
    {
        match self.c_type {
            PCardType::Ace => String::from_str("Ace"),
            PCardType::Jack => String::from_str("Jack"),
            PCardType::Queen => String::from_str("Queen"),
            PCardType::King => String::from_str("King"),
            PCardType::Normal => decimal_string(self.value as u128),
        }
    }

    /// Whether two cards have the same value and the same kind.
    pub fn eq(&self, other: &PlayCard) -> (same: bool)
        ensures
            same == (*self == *other),
    {
        self.value == other.value && self.c_type == other.c_type
    }
}

} // verus!
