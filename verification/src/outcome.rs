//! How a round stands for the player, given the two hands.

use crate::card::PlayCard;
use crate::scoring::{get_total_value, hand_total};
use vstd::prelude::*;

verus! {

/// The total above which a hand is bust.
pub const BUST_LIMIT: u128 = 21;

/// The total from which the dealer draws no more.
pub const DEALER_STAND: u128 = 16;

/// A natural blackjack: two cards that score exactly twenty-one.
pub open spec fn is_natural(hand: Seq<PlayCard>) -> bool {
    hand.len() == 2 && hand_total(hand) == BUST_LIMIT
}

/// The outcome of a round as (the player wins, by a natural blackjack, the
/// player is bust). The four cases are tried in this order:
///
/// 1. the player is bust: the player loses;
/// 2. the player holds a natural blackjack: the player wins;
/// 3. the dealer holds a natural blackjack: the player loses;
/// 4. otherwise the player wins if the dealer has reached sixteen and is
///    either bust or below the player.
pub open spec fn round_outcome(player: Seq<PlayCard>, dealer: Seq<PlayCard>) -> (bool, bool, bool) {
    let player_value = hand_total(player);
    let dealer_value = hand_total(dealer);
    if player_value > BUST_LIMIT {
        (false, false, true)
    } else if is_natural(player) {
        (true, true, false)
    } else if is_natural(dealer) {
        (false, true, false)
    } else {
        (
            dealer_value >= DEALER_STAND && player_value <= BUST_LIMIT && (player_value
                > dealer_value || dealer_value > BUST_LIMIT),
            false,
            player_value > BUST_LIMIT,
        )
    }
}

/// Classifies the round from the two hands: whether the player wins, whether
/// a natural blackjack decided it, and whether the player is bust.
pub fn result(player_deck: &Vec<PlayCard>, dealer_deck: &Vec<PlayCard>) -> (outcome: (
    bool,
    bool,
    bool,
))
    ensures
        outcome == round_outcome(player_deck@, dealer_deck@),
{
    let dealer_value = get_total_value(dealer_deck);
    let player_value = get_total_value(player_deck);

    if player_value > BUST_LIMIT {
        return (false, false, true);
    }
    if player_value == BUST_LIMIT && player_deck.len() == 2 {
        return (true, true, false);
    }
    if dealer_value == BUST_LIMIT && dealer_deck.len() == 2 {
        return (false, true, false);
    }
    (
        dealer_value >= DEALER_STAND && player_value <= BUST_LIMIT && (player_value > dealer_value
            || dealer_value > BUST_LIMIT),
        false,
        player_value > BUST_LIMIT,
    )
}

/// The message that closes a round.
#[derive(Debug, PartialEq, Eq, Clone, Copy, Structural)]
pub enum Verdict {
    /// The player was dealt a natural blackjack.
    Blackjack,
    /// The player went over twenty-one.
    PlayerBust,
    /// The player wins because the dealer went over twenty-one.
    DealerBust,
    /// The player wins on the higher total.
    Won,
    /// Both totals are equal.
    Tie,
    /// The player loses.
    Lost,
}

/// The text that reports a verdict.
pub open spec fn verdict_text(verdict: Verdict) -> Seq<char> {
    match verdict {
        Verdict::Blackjack => "Blackjack! You won."@,
        Verdict::PlayerBust => "Bust! You lost."@,
        Verdict::DealerBust => "Bust! You won."@,
        Verdict::Won => "You won."@,
        Verdict::Tie => "Tie!"@,
        Verdict::Lost => "You lost!"@,
    }
}

impl Verdict {
    /// The text that reports this verdict.
    pub fn message(&self) -> (text: &'static str)
        ensures
            text@ == verdict_text(*self),
    {
        match self {
            Verdict::Blackjack => "Blackjack! You won.",
            Verdict::PlayerBust => "Bust! You lost.",
            Verdict::DealerBust => "Bust! You won.",
            Verdict::Won => "You won.",
            Verdict::Tie => "Tie!",
            Verdict::Lost => "You lost!",
        }
    }
}

/// The verdict once the dealer has played: a win is the dealer's bust if the
/// dealer is over twenty-one and a plain win otherwise; without a win, equal
/// totals are a tie and anything else is a loss.
pub open spec fn closing_verdict(player: Seq<PlayCard>, dealer: Seq<PlayCard>) -> Verdict {
    if round_outcome(player, dealer).0 {
        if hand_total(dealer) > BUST_LIMIT {
            Verdict::DealerBust
        } else {
            Verdict::Won
        }
    } else if hand_total(player) == hand_total(dealer) {
        Verdict::Tie
    } else {
        Verdict::Lost
    }
}

/// Picks the verdict that closes a round in which the dealer has played.
pub fn closing(player_deck: &Vec<PlayCard>, dealer_deck: &Vec<PlayCard>) -> (verdict: Verdict)
    ensures
        verdict == closing_verdict(player_deck@, dealer_deck@),
{
    if result(player_deck, dealer_deck).0 {
        if get_total_value(dealer_deck) > BUST_LIMIT {
            Verdict::DealerBust
        } else {
            Verdict::Won
        }
    } else if get_total_value(player_deck) == get_total_value(dealer_deck) {
        Verdict::Tie
    } else {
        Verdict::Lost
    }
}

/// A player's natural blackjack wins against every dealer hand.
pub proof fn lemma_player_natural_wins(player: Seq<PlayCard>, dealer: Seq<PlayCard>)
    requires
        is_natural(player),
    ensures
        round_outcome(player, dealer) == (true, true, false),
{
}

/// A bust player loses whatever the dealer holds.
pub proof fn lemma_bust_player_loses(player: Seq<PlayCard>, dealer: Seq<PlayCard>)
    requires
        hand_total(player) > BUST_LIMIT,
    ensures
        round_outcome(player, dealer) == (false, false, true),
{
}

/// A dealer's natural blackjack beats every player hand that is neither bust
/// nor a natural blackjack itself.
pub proof fn lemma_dealer_natural_wins(player: Seq<PlayCard>, dealer: Seq<PlayCard>)
    requires
        is_natural(dealer),
        hand_total(player) <= BUST_LIMIT,
        !is_natural(player),
    ensures
        round_outcome(player, dealer) == (false, true, false),
{
}

/// With no natural blackjack on either side, a player who is not bust wins
/// against a dealer who stands on a lower total.
pub proof fn lemma_higher_total_wins(player: Seq<PlayCard>, dealer: Seq<PlayCard>)
    requires
        !is_natural(player),
        !is_natural(dealer),
        DEALER_STAND <= hand_total(dealer) < hand_total(player) <= BUST_LIMIT,
    ensures
        round_outcome(player, dealer) == (true, false, false),
{
}

/// Equal totals never count as a win, unless the player holds a natural
/// blackjack: a tie is told apart from a loss only when the round is reported.
pub proof fn lemma_equal_totals_do_not_win(player: Seq<PlayCard>, dealer: Seq<PlayCard>)
    requires
        hand_total(player) == hand_total(dealer),
        !is_natural(player),
    ensures
        !round_outcome(player, dealer).0,
{
}

} // verus!
