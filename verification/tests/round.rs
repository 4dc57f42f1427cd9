use blackjack::card::{PCardType, PlayCard};
use blackjack::catalog::init_cards;
use blackjack::outcome::Verdict;
use blackjack::round::{Action, Phase, Round, LONG_PAUSE_MS, SHORT_PAUSE_MS};
use blackjack::scoring::get_total_value;

// Places in the catalog.
const TWO: usize = 0;
const THREE: usize = 1;
const FOUR: usize = 2;
const FIVE: usize = 3;
const SEVEN: usize = 5;
const EIGHT: usize = 6;
const NINE: usize = 7;
const TEN: usize = 8;
const ACE: usize = 9;
const QUEEN: usize = 11;
const KING: usize = 12;

fn card(place: usize) -> PlayCard {
    let mut cards = Vec::new();
    init_cards(&mut cards);
    cards[place]
}

fn hand(places: &[usize]) -> Vec<PlayCard> {
    places.iter().map(|place| card(*place)).collect()
}

fn dealt(first: usize, second: usize, dealer: usize) -> Round {
    let (round, _) = Round::new().advance("", (first, second, dealer));
    round
}

fn one(draw: usize) -> (usize, usize, usize) {
    (draw, 0, 0)
}

/// A round in the dealer's turn: the player stays on the first two cards.
fn at_dealer(first: usize, second: usize, dealer: usize) -> Round {
    let (round, _) = dealt(first, second, dealer).advance("stay", one(0));
    round
}

/// A round at its resolution: the dealer has drawn the given cards.
fn resolved(player: (usize, usize), dealer: &[usize]) -> Round {
    let mut round = at_dealer(player.0, player.1, dealer[0]);
    for draw in &dealer[1..] {
        round = round.advance("", one(*draw)).0;
    }
    let (round, action) = round.advance("", one(0));
    assert_eq!(action, Action::Proceed);
    assert_eq!(round.phase(), Phase::Resolved);
    round
}

#[test]
fn new_round_waits_for_the_deal_with_empty_hands() {
    let round = Round::new();
    assert_eq!(round.phase(), Phase::Dealing);
    assert!(round.player().is_empty());
    assert!(round.dealer().is_empty());
}

#[test]
fn deal_gives_the_player_two_cards_and_the_dealer_one() {
    let (round, action) = Round::new().advance("", (TWO, THREE, FOUR));
    assert_eq!(action, Action::AskDecision);
    assert_eq!(round.phase(), Phase::PlayerDeciding);
    assert_eq!(*round.player(), hand(&[TWO, THREE]));
    assert_eq!(*round.dealer(), hand(&[FOUR]));
}

#[test]
fn deal_does_not_read_the_line() {
    let (round, action) = Round::new().advance("n", (TEN, NINE, KING));
    assert_eq!(action, Action::AskDecision);
    assert_eq!(round.phase(), Phase::PlayerDeciding);
    assert_eq!(round.player().len(), 2);
    assert_eq!(round.dealer().len(), 1);
}

#[test]
fn natural_blackjack_at_the_deal_ends_the_round() {
    let (round, action) = Round::new().advance("", (ACE, KING, TWO));
    assert_eq!(action, Action::Announce(Verdict::Blackjack));
    assert_eq!(round.phase(), Phase::Restart);
    assert_eq!(*round.player(), hand(&[ACE, KING]));
    assert_eq!(*round.dealer(), hand(&[TWO]));

    let (round, action) = Round::new().advance("", (QUEEN, ACE, ACE));
    assert_eq!(action, Action::Announce(Verdict::Blackjack));
    assert_eq!(round.phase(), Phase::Restart);
}

#[test]
fn two_aces_at_the_deal_are_no_blackjack() {
    let (round, action) = Round::new().advance("", (ACE, ACE, KING));
    assert_eq!(action, Action::AskDecision);
    assert_eq!(round.phase(), Phase::PlayerDeciding);
    assert_eq!(get_total_value(round.player()), 12);
}

#[test]
fn hit_appends_one_card_to_the_player_and_leaves_the_dealer() {
    let (round, action) = dealt(TWO, THREE, FOUR).advance("hit", (SEVEN, KING, KING));
    assert_eq!(action, Action::AskDecision);
    assert_eq!(round.phase(), Phase::PlayerDeciding);
    assert_eq!(*round.player(), hand(&[TWO, THREE, SEVEN]));
    assert_eq!(*round.dealer(), hand(&[FOUR]));

    let (round, action) = round.advance("  HIT \n", one(NINE));
    assert_eq!(action, Action::AskDecision);
    assert_eq!(*round.player(), hand(&[TWO, THREE, SEVEN, NINE]));
    assert_eq!(*round.dealer(), hand(&[FOUR]));
    assert_eq!(get_total_value(round.player()), 21);
}

#[test]
fn hit_over_twenty_one_ends_the_round_without_the_dealer() {
    let (round, action) = dealt(TEN, NINE, FOUR).advance("hit\n", one(KING));
    assert_eq!(action, Action::Announce(Verdict::PlayerBust));
    assert_eq!(round.phase(), Phase::Restart);
    assert_eq!(*round.player(), hand(&[TEN, NINE, KING]));
    assert_eq!(*round.dealer(), hand(&[FOUR]));
}

#[test]
fn stay_changes_no_hand_and_hands_over_to_the_dealer() {
    let (round, action) = dealt(TEN, NINE, FOUR).advance("Stay\n", one(KING));
    assert_eq!(action, Action::ShowDealer { pause_ms: 1000 });
    assert_eq!(round.phase(), Phase::DealerPlaying);
    assert_eq!(*round.player(), hand(&[TEN, NINE]));
    assert_eq!(*round.dealer(), hand(&[FOUR]));
}

#[test]
fn unknown_reply_is_rejected_and_changes_nothing() {
    for reply in ["", "\n", "hit me", "double", "h", "stay!"] {
        let (round, action) = dealt(TEN, NINE, FOUR).advance(reply, one(KING));
        assert_eq!(action, Action::RejectReply);
        assert_eq!(round.phase(), Phase::PlayerDeciding);
        assert_eq!(*round.player(), hand(&[TEN, NINE]));
        assert_eq!(*round.dealer(), hand(&[FOUR]));
    }
}

#[test]
fn dealer_draws_one_card_at_a_time_below_sixteen() {
    let round = at_dealer(TEN, NINE, FOUR);
    let (round, action) = round.advance("", (TEN, KING, KING));
    assert_eq!(action, Action::ShowDealer { pause_ms: SHORT_PAUSE_MS });
    assert_eq!(round.phase(), Phase::DealerPlaying);
    assert_eq!(*round.dealer(), hand(&[FOUR, TEN]));
    assert_eq!(*round.player(), hand(&[TEN, NINE]));

    let (round, action) = round.advance("", one(TWO));
    assert_eq!(action, Action::ShowDealer { pause_ms: LONG_PAUSE_MS });
    assert_eq!(round.phase(), Phase::DealerPlaying);
    assert_eq!(*round.dealer(), hand(&[FOUR, TEN, TWO]));
    assert_eq!(get_total_value(round.dealer()), 16);
}

#[test]
fn dealer_stands_from_sixteen_on() {
    let round = at_dealer(TEN, NINE, FOUR);
    let round = round.advance("", one(TEN)).0.advance("", one(TWO)).0;
    let (round, action) = round.advance("", one(KING));
    assert_eq!(action, Action::Proceed);
    assert_eq!(round.phase(), Phase::Resolved);
    assert_eq!(*round.dealer(), hand(&[FOUR, TEN, TWO]));
    assert_eq!(*round.player(), hand(&[TEN, NINE]));
}

#[test]
fn pauses_are_half_a_second_and_a_second() {
    assert_eq!(SHORT_PAUSE_MS, 500);
    assert_eq!(LONG_PAUSE_MS, 1000);
}

#[test]
fn dealer_with_a_soft_hand_goes_on_drawing() {
    // Ace and four score fifteen; a ten keeps the total at fifteen.
    let round = at_dealer(TEN, NINE, ACE);
    let (round, action) = round.advance("", one(FOUR));
    assert_eq!(action, Action::ShowDealer { pause_ms: 500 });
    assert_eq!(get_total_value(round.dealer()), 15);
    let (round, action) = round.advance("", one(TEN));
    assert_eq!(action, Action::ShowDealer { pause_ms: 500 });
    assert_eq!(get_total_value(round.dealer()), 15);
    let (round, action) = round.advance("", one(TWO));
    assert_eq!(action, Action::ShowDealer { pause_ms: 1000 });
    assert_eq!(get_total_value(round.dealer()), 17);
    assert_eq!(round.advance("", one(TWO)).1, Action::Proceed);
}

#[test]
fn resolution_announces_a_win_on_the_higher_total() {
    let (round, action) = resolved((TEN, NINE), &[FOUR, TEN, TWO]).advance("", one(0));
    assert_eq!(action, Action::Announce(Verdict::Won));
    assert_eq!(round.phase(), Phase::Restart);
    assert_eq!(*round.player(), hand(&[TEN, NINE]));
    assert_eq!(*round.dealer(), hand(&[FOUR, TEN, TWO]));
}

#[test]
fn resolution_announces_the_dealer_bust() {
    let (_, action) = resolved((TEN, TWO), &[KING, FIVE, NINE]).advance("", one(0));
    assert_eq!(action, Action::Announce(Verdict::DealerBust));
}

#[test]
fn resolution_announces_a_tie_on_equal_totals() {
    let (_, action) = resolved((TEN, SEVEN), &[NINE, EIGHT]).advance("", one(0));
    assert_eq!(action, Action::Announce(Verdict::Tie));
}

#[test]
fn resolution_announces_a_loss_on_the_lower_total() {
    let (_, action) = resolved((TEN, SEVEN), &[KING, QUEEN]).advance("", one(0));
    assert_eq!(action, Action::Announce(Verdict::Lost));
}

#[test]
fn resolution_announces_a_loss_against_the_dealer_blackjack() {
    let (_, action) = resolved((TEN, EIGHT), &[ACE, QUEEN]).advance("", one(0));
    assert_eq!(action, Action::Announce(Verdict::Lost));
}

#[test]
fn restart_clears_both_hands_for_a_new_deal() {
    let (round, _) = resolved((TEN, NINE), &[FOUR, TEN, TWO]).advance("", one(0));
    for reply in ["y\n", "", "yes", " n", "ok"] {
        let (again, _) = resolved((TEN, NINE), &[FOUR, TEN, TWO]).advance("", one(0));
        let (again, action) = again.advance(reply, one(KING));
        assert_eq!(action, Action::Proceed);
        assert_eq!(again.phase(), Phase::Dealing);
        assert_eq!(again.player().len(), 0);
        assert_eq!(again.dealer().len(), 0);
        assert_eq!(get_total_value(again.player()), 0);
        assert_eq!(get_total_value(again.dealer()), 0);
    }
    assert_eq!(round.phase(), Phase::Restart);
}

#[test]
fn new_round_after_restart_deals_afresh() {
    let (round, _) = Round::new().advance("", (ACE, KING, TWO));
    let (round, _) = round.advance("again", one(0));
    let (round, action) = round.advance("", (FIVE, SEVEN, QUEEN));
    assert_eq!(action, Action::AskDecision);
    assert_eq!(*round.player(), hand(&[FIVE, SEVEN]));
    assert_eq!(*round.dealer(), hand(&[QUEEN]));
}

#[test]
fn refusal_ends_the_game() {
    for reply in ["n", "N\n", "no", "Nope"] {
        let (round, _) = Round::new().advance("", (ACE, KING, TWO));
        let (round, action) = round.advance(reply, one(0));
        assert_eq!(action, Action::Quit);
        assert_eq!(round.phase(), Phase::Terminated);
        let (round, action) = round.advance("yes", one(0));
        assert_eq!(action, Action::Quit);
        assert_eq!(round.phase(), Phase::Terminated);
    }
}

#[test]
fn random_deal_gives_two_catalog_cards_and_one() {
    let mut cards = Vec::new();
    init_cards(&mut cards);
    for _ in 0..300 {
        let (round, action) = Round::new().step("");
        assert_eq!(round.player().len(), 2);
        assert_eq!(round.dealer().len(), 1);
        assert!(round.player().iter().all(|card| cards.contains(card)));
        assert!(cards.contains(&round.dealer()[0]));
        if get_total_value(round.player()) == 21 {
            assert_eq!(action, Action::Announce(Verdict::Blackjack));
            assert_eq!(round.phase(), Phase::Restart);
        } else {
            assert_eq!(action, Action::AskDecision);
            assert_eq!(round.phase(), Phase::PlayerDeciding);
        }
    }
}

#[test]
fn random_deal_reaches_every_card_of_the_catalog() {
    let mut cards = Vec::new();
    init_cards(&mut cards);
    let mut seen = Vec::new();
    for _ in 0..3000 {
        let (round, _) = Round::new().step("");
        seen.extend(round.player().iter().copied());
        seen.extend(round.dealer().iter().copied());
    }
    assert!(cards.iter().all(|card| seen.contains(card)));
    assert!(seen.contains(&PlayCard::new(10, PCardType::King)));
}

#[test]
fn random_hit_appends_one_catalog_card() {
    let mut cards = Vec::new();
    init_cards(&mut cards);
    for _ in 0..300 {
        let (round, action) = dealt(TWO, THREE, FOUR).step("hit");
        assert_eq!(action, Action::AskDecision);
        assert_eq!(round.player().len(), 3);
        assert_eq!(round.player()[..2].to_vec(), hand(&[TWO, THREE]));
        assert!(cards.contains(&round.player()[2]));
        assert_eq!(*round.dealer(), hand(&[FOUR]));
    }
}

#[test]
fn random_step_draws_nothing_on_stay_and_on_unknown_replies() {
    let (round, action) = dealt(TWO, THREE, FOUR).step("stay");
    assert_eq!(action, Action::ShowDealer { pause_ms: 1000 });
    assert_eq!(*round.player(), hand(&[TWO, THREE]));
    assert_eq!(*round.dealer(), hand(&[FOUR]));
    let (round, action) = dealt(TWO, THREE, FOUR).step("what");
    assert_eq!(action, Action::RejectReply);
    assert_eq!(*round.player(), hand(&[TWO, THREE]));
    assert_eq!(*round.dealer(), hand(&[FOUR]));
}

#[test]
fn dealer_turn_ends_with_just_enough_draws() {
    for _ in 0..500 {
        let played = at_dealer(TEN, NINE, FOUR).play_dealer();
        assert_eq!(played.phase(), Phase::Resolved);
        assert_eq!(*played.player(), hand(&[TEN, NINE]));
        let dealer = played.dealer();
        assert_eq!(dealer[0], card(FOUR));
        assert!(get_total_value(dealer) >= 16);
        for held in 1..dealer.len() {
            assert!(get_total_value(&dealer[..held].to_vec()) < 16);
        }
    }
}

#[test]
fn dealer_turn_outside_its_phase_changes_nothing() {
    let round = Round::new().play_dealer();
    assert_eq!(round.phase(), Phase::Dealing);
    assert!(round.dealer().is_empty());
    let round = dealt(TEN, NINE, FOUR).play_dealer();
    assert_eq!(round.phase(), Phase::PlayerDeciding);
    assert_eq!(*round.dealer(), hand(&[FOUR]));
    let round = resolved((TEN, NINE), &[FOUR, TEN, TWO]).play_dealer();
    assert_eq!(round.phase(), Phase::Resolved);
    assert_eq!(*round.dealer(), hand(&[FOUR, TEN, TWO]));
}

#[test]
fn random_games_run_through_the_phases_in_order() {
    for game in 0..200 {
        let mut round = Round::new();
        let mut reply = String::new();
        let mut rounds_left = 3;
        let mut steps = 0;
        loop {
            let before = round.phase();
            let held = (round.player().len(), round.dealer().len());
            let (stepped, action) = round.step(&reply);
            round = stepped;
            steps += 1;
            assert!(steps < 1000);
            let after = round.phase();
            let holds = (round.player().len(), round.dealer().len());
            match before {
                Phase::Dealing => {
                    assert_eq!(held, (0, 0));
                    assert_eq!(holds, (2, 1));
                    assert!(after == Phase::PlayerDeciding || after == Phase::Restart);
                }
                Phase::PlayerDeciding => {
                    assert_eq!(holds.1, held.1);
                    assert!(holds.0 == held.0 || holds.0 == held.0 + 1);
                    assert_ne!(after, Phase::Dealing);
                }
                Phase::DealerPlaying => {
                    assert_eq!(holds.0, held.0);
                    assert!(after == Phase::DealerPlaying || after == Phase::Resolved);
                }
                Phase::Resolved => {
                    assert_eq!(holds, held);
                    assert_eq!(after, Phase::Restart);
                    assert!(get_total_value(round.dealer()) >= 16);
                    assert!(get_total_value(round.player()) <= 21);
                }
                Phase::Restart => {
                    assert!(after == Phase::Dealing || after == Phase::Terminated);
                }
                Phase::Terminated => unreachable!(),
            }
            reply = match action {
                Action::AskDecision | Action::RejectReply => {
                    if get_total_value(round.player()) < 12 + (game % 7) as u128 {
                        String::from("hit\n")
                    } else {
                        String::from("stay\n")
                    }
                }
                Action::Announce(_) => {
                    rounds_left -= 1;
                    if rounds_left == 0 { String::from("no\n") } else { String::from("\n") }
                }
                Action::Quit => break,
                Action::ShowDealer { .. } | Action::Proceed => String::new(),
            };
        }
        assert_eq!(round.phase(), Phase::Terminated);
        assert_eq!(rounds_left, 0);
    }
}
