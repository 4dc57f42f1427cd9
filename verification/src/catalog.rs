//! The card catalog and the draw from it.
//!
//! The catalog holds thirteen cards: the numbered cards two to ten, then an
//! ace, a jack, a queen and a king, each of these four with ten pips. A draw
//! copies one card out of the catalog, so the catalog never runs out.

use crate::card::{PCardType, PlayCard};
use rand::Rng;
use vstd::prelude::*;

verus! {

/// The number of cards in the catalog.
pub const CATALOG_SIZE: usize = 13;

/// The kinds in the order in which they are declared.
pub open spec fn kinds_in_order() -> Seq<PCardType> {
    seq![PCardType::Ace, PCardType::Jack, PCardType::Queen, PCardType::King, PCardType::Normal]
}

/// The card at place `i` of the catalog.
pub open spec fn catalog_card(i: int) -> PlayCard {
    if i < 9 {
        PlayCard { value: (i + 2) as u8, c_type: PCardType::Normal }
    } else {
        PlayCard { value: 10, c_type: kinds_in_order()[i - 9] }
    }
}

/// The catalog: nine numbered cards, then ace, jack, queen and king.
pub open spec fn catalog_cards() -> Seq<PlayCard> {
    Seq::new(CATALOG_SIZE as nat, |i: int| catalog_card(i))
}

/// Appends the thirteen cards of the catalog to `card_deck`, in catalog order.
pub fn init_cards(card_deck: &mut Vec<PlayCard>)
    ensures
        final(card_deck)@ == old(card_deck)@ + catalog_cards(),
{
    let mut value: u8 = 2;
    while value < 11
        invariant
            2 <= value <= 11,
            card_deck@ == old(card_deck)@ + catalog_cards().take(value - 2),
        decreases 11 - value,
    {
        card_deck.push(PlayCard::new(value, PCardType::Normal));
        value += 1;
    }
    let kinds = [
        PCardType::Ace,
        PCardType::Jack,
        PCardType::Queen,
        PCardType::King,
        PCardType::Normal,
    ];
    let mut k: usize = 0;
    while k < 5
        invariant
            k <= 5,
            kinds@ == kinds_in_order(),
            card_deck@ == old(card_deck)@ + catalog_cards().take(if k < 4 {
                9 + k
            } else {
                13
            }),
        decreases 5 - k,
    {
        let special = kinds[k];
        if special != PCardType::Normal {
            card_deck.push(PlayCard::new(10, special));
        }
        k += 1;
    }
}

/// A random index below `bound`, from rand's `thread_rng().gen_range(0..bound)`.
///
/// Trusted: the sample lies in the half-open range that was asked for. Which
/// index comes back is left open; two calls may differ. rand panics on an empty
/// range, which `requires` leaves out.
#[verifier::external_body]
pub(crate) fn random_below(bound: usize) -> (index: usize)
    requires
        bound > 0,
    ensures
        index < bound,
{
    rand::thread_rng().gen_range(0..bound)
}

/// Appends a copy of the card at `index` of `card_deck` to `target_deck`.
pub fn add_card_at(target_deck: &mut Vec<PlayCard>, card_deck: &Vec<PlayCard>, index: usize)
    requires
        index < card_deck.len(),
    ensures
        final(target_deck)@ == old(target_deck)@.push(card_deck@[index as int]),
{
    let card = card_deck[index];
    target_deck.push(PlayCard::new(card.value, card.c_type));
}

/// Draws one card of `card_deck` at random and appends a copy of it to
/// `target_deck`. The catalog is left as it was.
pub fn add_card(target_deck: &mut Vec<PlayCard>, card_deck: &Vec<PlayCard>)
    requires
        card_deck.len() > 0,
    ensures
        exists|index: int|
            0 <= index < card_deck.len() && final(target_deck)@ == old(target_deck)@.push(
                #[trigger] card_deck@[index],
            ),
{
    let index = random_below(card_deck.len());
    add_card_at(target_deck, card_deck, index);
}

} // verus!
