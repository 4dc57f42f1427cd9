//! The lines that show the hands.
//!
//! A hand is listed as the names of its cards, separated by a comma and a
//! space. The list is put together in a `string_builder::Builder`.

use crate::card::{card_name, PlayCard};
use crate::decimal::{decimal, decimal_string};
use crate::scoring::{get_total_value, hand_total};
use std::string::FromUtf8Error;
use string_builder::Builder;
use vstd::prelude::*;
use vstd::utf8::{encode_utf8, valid_utf8};

verus! {

/// string_builder's `Builder`, opaque to the verifier.
#[verifier::external_type_specification]
#[verifier::external_body]
pub struct ExBuilder(Builder);

/// std's `FromUtf8Error`, opaque to the verifier.
#[verifier::external_type_specification]
#[verifier::external_body]
pub struct ExFromUtf8Error(FromUtf8Error);

/// The bytes that a builder holds, in the order in which they were appended.
pub uninterp spec fn builder_bytes(builder: Builder) -> Seq<u8>;

/// string_builder's `Builder::default()`.
///
/// Trusted: the new builder holds no bytes.
#[verifier::external_body]
fn new_builder() -> (builder: Builder)
    ensures
        builder_bytes(builder) == Seq::<u8>::empty(),
{
    Builder::default()
}

/// string_builder's `Builder::append`, called with a string slice.
///
/// Trusted: the UTF-8 bytes of `text` are added after the bytes that the
/// builder held, and nothing else changes.
#[verifier::external_body]
fn append_text(builder: &mut Builder, text: &str)
    ensures
        builder_bytes(*final(builder)) == builder_bytes(*old(builder)) + encode_utf8(text@),
{
    builder.append(text)
}

/// string_builder's `Builder::string`, which hands the bytes to std's
/// `String::from_utf8`.
///
/// Trusted: bytes that are valid UTF-8 give a string, and a string that
/// comes back consists of the builder's bytes.
#[verifier::external_body]
fn into_string(builder: Builder) -> (text: Result<String, FromUtf8Error>)
    ensures
        valid_utf8(builder_bytes(builder)) ==> text is Ok,
        text matches Ok(string) ==> encode_utf8(string@) == builder_bytes(builder),
{
    builder.string()
}

/// The names of the cards of a hand, separated by a comma and a space.
pub open spec fn joined_names(hand: Seq<PlayCard>) -> Seq<char>
    decreases hand.len(),
{
    if hand.len() == 0 {
        Seq::empty()
    } else if hand.len() == 1 {
        card_name(hand.last())
    } else {
        joined_names(hand.drop_last()) + ", "@ + card_name(hand.last())
    }
}

/// The UTF-8 bytes of two texts, one after the other, are the bytes of the
/// first followed by the bytes of the second.
proof fn lemma_encode_concat(a: Seq<char>, b: Seq<char>)
    ensures
        encode_utf8(a + b) == encode_utf8(a) + encode_utf8(b),
    decreases a.len(),
{
    if a.len() == 0 {
        assert(a + b =~= b);
        assert(encode_utf8(a) + encode_utf8(b) =~= encode_utf8(b));
    } else {
        lemma_encode_concat(a.drop_first(), b);
        assert((a + b).drop_first() =~= a.drop_first() + b);
        assert(encode_utf8(a + b) =~= encode_utf8(a) + encode_utf8(b));
    }
}

/// Lists the names of the cards of a hand, separated by a comma and a space.
pub fn get_cards(deck: &Vec<PlayCard>) -> (names: String)
    ensures
        names@ == joined_names(deck@),
{
    let mut deck_builder = new_builder();
    let mut index: usize = 0;
    while index < deck.len()
        invariant
            index <= deck.len(),
            builder_bytes(deck_builder) == encode_utf8(joined_names(deck@.take(index as int))),
        decreases deck.len() - index,
    {
        let ghost listed = joined_names(deck@.take(index as int));
        let name = deck[index].stringify();
        proof {
            assert(deck@.take(index + 1).drop_last() =~= deck@.take(index as int));
            lemma_encode_concat(listed, ", "@);
            lemma_encode_concat(listed + ", "@, name@);
        }
        if index != 0 {
            append_text(&mut deck_builder, ", ");
        }
        append_text(&mut deck_builder, name.as_str());
        index += 1;
    }
    proof {
        assert(deck@.take(deck.len() as int) =~= deck@);
        vstd::utf8::encode_utf8_valid_utf8(joined_names(deck@));
    }
    match into_string(deck_builder) {
        Ok(names) => {
            proof {
                vstd::utf8::encode_utf8_decode_utf8(names@);
                vstd::utf8::encode_utf8_decode_utf8(joined_names(deck@));
            }
            names
        },
        Err(_) => vstd::pervasive::unreached(),
    }
}

/// The line that shows a hand: a label, the hand's total, and the names of
/// its cards in square brackets.
pub open spec fn hand_line(label: Seq<char>, hand: Seq<PlayCard>) -> Seq<char> {
    label + decimal(hand_total(hand)) + " -> ["@ + joined_names(hand) + "]"@
}

/// What is shown of a round: a message on a line of its own, then the
/// dealer's hand and the player's hand, each on its line.
pub open spec fn state_report_text(
    message: Seq<char>,
    player: Seq<PlayCard>,
    dealer: Seq<PlayCard>,
) -> Seq<char> {
    message + "\n"@ + hand_line(" - dealer:   "@, dealer) + "\n"@ + hand_line(
        " - you:      "@,
        player,
    ) + "\n"@
}

/// Writes the line that shows a hand under the given label.
pub fn show_hand(label: &str, deck: &Vec<PlayCard>) -> (line: String)
    ensures
        line@ == hand_line(label@, deck@),
{
    let mut line = String::from_str(label);
    line.append(decimal_string(get_total_value(deck)).as_str());
    line.append(" -> [");
    line.append(get_cards(deck).as_str());
    line.append("]");
    line
}

/// Writes the line that shows the dealer's hand during the dealer's turn.
pub fn dealer_line(dealer_deck: &Vec<PlayCard>) -> (line: String)
    ensures
        line@ == hand_line("Dealer: "@, dealer_deck@),
{
    show_hand("Dealer: ", dealer_deck)
}

/// Writes what is shown of a round: the message, the dealer's hand and the
/// player's hand, one line each.
pub fn state_report(
    message: &str,
    player_deck: &Vec<PlayCard>,
    dealer_deck: &Vec<PlayCard>,
) -> (report: String)
    ensures
        report@ == state_report_text(message@, player_deck@, dealer_deck@),
{
    let mut report = String::from_str(message);
    report.append("\n");
    report.append(show_hand(" - dealer:   ", dealer_deck).as_str());
    report.append("\n");
    report.append(show_hand(" - you:      ", player_deck).as_str());
    report.append("\n");
    report
}

} // verus!
