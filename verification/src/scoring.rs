//! The blackjack total of a hand.
//!
//! Every card but an ace counts its pip value. The aces are then added one
//! after the other to the running total: an ace counts eleven while that keeps
//! the total at twenty-one or below, and one otherwise.

use crate::card::{PCardType, PlayCard};
use vstd::prelude::*;

verus! {

/// What a card adds before the aces are counted: its value, or nothing for an ace.
pub open spec fn pip_of(card: PlayCard) -> nat {
    if card.c_type == PCardType::Ace {
        0
    } else {
        card.value as nat
    }
}

/// The sum of the pip values of the cards that are not aces.
pub open spec fn pip_sum(hand: Seq<PlayCard>) -> nat
    decreases hand.len(),
{
    if hand.len() == 0 {
        0
    } else {
        pip_sum(hand.drop_last()) + pip_of(hand.last())
    }
}

/// The number of aces in the hand.
pub open spec fn ace_count(hand: Seq<PlayCard>) -> nat
    decreases hand.len(),
{
    if hand.len() == 0 {
        0
    } else {
        ace_count(hand.drop_last()) + if hand.last().c_type == PCardType::Ace {
            1nat
        } else {
            0nat
        }
    }
}

/// The sum of the values of all the cards, aces included, as they stand on the cards.
pub open spec fn value_sum(hand: Seq<PlayCard>) -> nat
    decreases hand.len(),
{
    if hand.len() == 0 {
        0
    } else {
        value_sum(hand.drop_last()) + hand.last().value as nat
    }
}

/// The running total after one more ace.
pub open spec fn ace_step(total: nat) -> nat {
    if total + 11 <= 21 {
        total + 11
    } else {
        total + 1
    }
}

/// The running total after `aces` more aces, each added by `ace_step`.
pub open spec fn add_aces(total: nat, aces: nat) -> nat
    decreases aces,
{
    if aces == 0 {
        total
    } else {
        add_aces(ace_step(total), (aces - 1) as nat)
    }
}

/// The blackjack total of a hand.
pub open spec fn hand_total(hand: Seq<PlayCard>) -> nat {
    add_aces(pip_sum(hand), ace_count(hand))
}

/// The total in which every ace counts one: no hand scores less than this.
pub open spec fn hard_total(hand: Seq<PlayCard>) -> nat {
    pip_sum(hand) + ace_count(hand)
}

/// Adding aces one by one comes to this: the first ace counts eleven if the
/// total before it is at most ten, and every other ace counts one.
pub proof fn lemma_add_aces_closed_form(total: nat, aces: nat)
    ensures
        add_aces(total, aces) == total + aces + if aces >= 1 && total <= 10 {
            10nat
        } else {
            0nat
        },
    decreases aces,
{
    if aces > 0 {
        lemma_add_aces_closed_form(ace_step(total), (aces - 1) as nat);
    }
}

/// The total of a hand is its hard total, or ten more where an ace can count eleven.
pub proof fn lemma_hand_total_closed_form(hand: Seq<PlayCard>)
    ensures
        hand_total(hand) == hard_total(hand) + if ace_count(hand) >= 1 && pip_sum(hand) <= 10 {
            10nat
        } else {
            0nat
        },
        hard_total(hand) <= hand_total(hand) <= hard_total(hand) + 10,
{
    lemma_add_aces_closed_form(pip_sum(hand), ace_count(hand));
}

/// A hand without aces scores the sum of the values of its cards.
pub proof fn lemma_total_without_aces(hand: Seq<PlayCard>)
    requires
        ace_count(hand) == 0,
    ensures
        hand_total(hand) == value_sum(hand),
    decreases hand.len(),
{
    if hand.len() > 0 {
        lemma_total_without_aces(hand.drop_last());
    }
}

/// A hand with one ace, whose other cards sum to `pip_sum(hand)`, scores
/// eleven more than that sum if this stays at twenty-one or below, and one
/// more than it otherwise.
pub proof fn lemma_total_with_one_ace(hand: Seq<PlayCard>)
    requires
        ace_count(hand) == 1,
    ensures
        hand_total(hand) == if pip_sum(hand) + 11 <= 21 {
            pip_sum(hand) + 11
        } else {
            pip_sum(hand) + 1
        },
{
    reveal_with_fuel(add_aces, 2);
}

/// Taking one card out of a hand takes its share out of the pip sum and out
/// of the ace count.
proof fn lemma_sums_without_card(hand: Seq<PlayCard>, i: int)
    requires
        0 <= i < hand.len(),
    ensures
        pip_sum(hand) == pip_sum(hand.remove(i)) + pip_of(hand[i]),
        ace_count(hand) == ace_count(hand.remove(i)) + if hand[i].c_type == PCardType::Ace {
            1nat
        } else {
            0nat
        },
    decreases hand.len(),
{
    if i == hand.len() - 1 {
        assert(hand.remove(i) =~= hand.drop_last());
    } else {
        lemma_sums_without_card(hand.drop_last(), i);
        assert(hand.remove(i).drop_last() =~= hand.drop_last().remove(i));
    }
}

/// Two hands that hold the same cards have the same pip sum and the same ace count.
proof fn lemma_sums_ignore_order(a: Seq<PlayCard>, b: Seq<PlayCard>)
    requires
        a.to_multiset() == b.to_multiset(),
    ensures
        pip_sum(a) == pip_sum(b),
        ace_count(a) == ace_count(b),
    decreases a.len(),
{
    a.to_multiset_ensures();
    b.to_multiset_ensures();
    if a.len() > 0 {
        let card = a.last();
        let rest = a.drop_last();
        rest.to_multiset_ensures();
        assert(a =~= rest.push(card));
        assert(a.contains(card)) by {
            assert(a[a.len() - 1] == card);
        }
        assert(a.to_multiset().count(card) > 0);
        assert(b.to_multiset().count(card) > 0);
        assert(b.contains(card));
        let j = choose|j: int| 0 <= j < b.len() && b[j] == card;
        assert(b.remove(j).to_multiset() =~= rest.to_multiset());
        lemma_sums_ignore_order(rest, b.remove(j));
        lemma_sums_without_card(b, j);
    }
}

/// The total of a hand does not depend on the order of its cards: two hands
/// that hold the same cards, each as often as the other, score the same.
pub proof fn lemma_total_ignores_order(a: Seq<PlayCard>, b: Seq<PlayCard>)
    requires
        a.to_multiset() == b.to_multiset(),
    ensures
        hand_total(a) == hand_total(b),
{
    lemma_sums_ignore_order(a, b);
}

/// One more card adds its share to the pip sum and to the ace count, and
/// never lowers the hard total.
pub proof fn lemma_sums_with_card(hand: Seq<PlayCard>, card: PlayCard)
    ensures
        pip_sum(hand.push(card)) == pip_sum(hand) + pip_of(card),
        ace_count(hand.push(card)) == ace_count(hand) + if card.c_type == PCardType::Ace {
            1nat
        } else {
            0nat
        },
{
    assert(hand.push(card).drop_last() =~= hand);
}

/// The pip sum and the ace count of the first `n` cards are bounded by `n`.
proof fn lemma_sums_bounded(hand: Seq<PlayCard>)
    ensures
        pip_sum(hand) <= 255 * hand.len(),
        ace_count(hand) <= hand.len(),
    decreases hand.len(),
{
    if hand.len() > 0 {
        lemma_sums_bounded(hand.drop_last());
    }
}

/// Computes the blackjack total of a hand. The empty hand scores zero.
pub fn get_total_value(deck: &Vec<PlayCard>) -> (total: u128)
    ensures
        total == hand_total(deck@),
{
    let mut value: u128 = 0;
    let mut aces: usize = 0;
    let mut i: usize = 0;
    while i < deck.len()
        invariant
            i <= deck.len(),
            value == pip_sum(deck@.take(i as int)),
            aces == ace_count(deck@.take(i as int)),
        decreases deck.len() - i,
    {
        proof {
            assert(deck@.take(i + 1).drop_last() =~= deck@.take(i as int));
            lemma_sums_bounded(deck@.take(i as int));
        }
        if deck[i].c_type == PCardType::Ace {
            aces += 1;
        } else {
            value += deck[i].value as u128;
        }
        i += 1;
    }
    proof {
        assert(deck@.take(deck.len() as int) =~= deck@);
        lemma_sums_bounded(deck@);
    }
    let mut counted: usize = 0;
    while counted < aces
        invariant
            counted <= aces,
            value <= 255 * deck.len() + 11 * counted,
            add_aces(value as nat, (aces - counted) as nat) == hand_total(deck@),
        decreases aces - counted,
    {
        value += if value + 11 > 21 {
            1
        } else {
            11
        };
        counted += 1;
    }
    value
}

} // verus!
