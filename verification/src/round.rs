//! The round state machine.
//!
//! A round runs through its phases in this order: the deal, the player's
//! decisions, the dealer's turn, the resolution, and the question whether to
//! play again. `next` says, for a state, a line of input and the cards that
//! are drawn, what the following state is and what is to be shown. `Round`
//! holds such a state and moves it forward.

use crate::card::{PCardType, PlayCard};
use crate::catalog::{
    add_card_at, catalog_card, catalog_cards, init_cards, random_below, CATALOG_SIZE,
};
use crate::outcome::{
    closing, closing_verdict, result, round_outcome, Verdict, BUST_LIMIT, DEALER_STAND,
};
use crate::scoring::{
    get_total_value, hand_total, hard_total, lemma_hand_total_closed_form, lemma_sums_with_card,
};
use crate::text::{decision_of, is_refusal, parse_decision, refuses, Decision};
use vstd::prelude::*;

verus! {

/// Where a round stands.
#[derive(Debug, PartialEq, Eq, Clone, Copy, Structural)]
pub enum Phase {
    /// No card has been dealt yet.
    Dealing,
    /// The player is asked to hit or to stay.
    PlayerDeciding,
    /// The dealer draws up to sixteen.
    DealerPlaying,
    /// Both hands are final and the verdict is due.
    Resolved,
    /// The round is over and the player is asked whether to play again.
    Restart,
    /// The player has left.
    Terminated,
}

/// What is to be done after a step, before the next one.
#[derive(Debug, PartialEq, Eq, Clone, Copy, Structural)]
pub enum Action {
    /// Show both hands, ask whether to hit or to stay, and read the reply.
    AskDecision,
    /// Say that the reply was not understood, then ask again and read the reply.
    RejectReply,
    /// Show the dealer's hand and wait for so many milliseconds.
    ShowDealer { pause_ms: u64 },
    /// Nothing to show: take the next step.
    Proceed,
    /// Show both hands under the verdict, ask whether to play again, and read the reply.
    Announce(Verdict),
    /// Say goodbye and end.
    Quit,
}

/// The pause after the dealer's hand is shown while the dealer goes on drawing.
pub const SHORT_PAUSE_MS: u64 = 500;

/// The pause before the dealer's first move and after the dealer's last card.
pub const LONG_PAUSE_MS: u64 = 1000;

/// The state of a round: the two hands and the phase.
pub struct RoundState {
    pub player: Seq<PlayCard>,
    pub dealer: Seq<PlayCard>,
    pub phase: Phase,
}

/// The cards that a step may draw, as places in the catalog. The deal takes
/// all three, in this order: the player's two cards, then the dealer's card.
/// A hit and a dealer's draw take the first.
pub type Draws = (usize, usize, usize);

/// Whether a card is one of the thirteen of the catalog.
pub open spec fn in_catalog(card: PlayCard) -> bool {
    if card.c_type == PCardType::Normal {
        2 <= card.value <= 10
    } else {
        card.value == 10
    }
}

/// Whether every card of the hand is one of the catalog.
pub open spec fn from_catalog(hand: Seq<PlayCard>) -> bool {
    forall|i: int| 0 <= i < hand.len() ==> in_catalog(#[trigger] hand[i])
}

/// Whether all three draws are places in the catalog.
pub open spec fn valid_draws(draws: Draws) -> bool {
    draws.0 < CATALOG_SIZE && draws.1 < CATALOG_SIZE && draws.2 < CATALOG_SIZE
}

/// The state in which a game starts: both hands empty, the deal to come.
pub open spec fn initial_state() -> RoundState {
    RoundState { player: Seq::empty(), dealer: Seq::empty(), phase: Phase::Dealing }
}

/// What holds of every state that a game reaches.
///
/// The hands hold catalog cards only. Before the deal both are empty. While
/// the player decides, the player holds at least two cards and is not bust,
/// and the dealer holds one card. From the dealer's turn on the dealer holds
/// at least one card, and at the resolution the dealer has reached sixteen.
pub open spec fn well_formed(s: RoundState) -> bool {
    &&& from_catalog(s.player)
    &&& from_catalog(s.dealer)
    &&& match s.phase {
        Phase::Dealing => s.player.len() == 0 && s.dealer.len() == 0,
        Phase::PlayerDeciding => {
            &&& s.player.len() >= 2
            &&& s.dealer.len() == 1
            &&& hand_total(s.player) <= BUST_LIMIT
        },
        Phase::DealerPlaying => {
            &&& s.player.len() >= 2
            &&& s.dealer.len() >= 1
            &&& hand_total(s.player) <= BUST_LIMIT
        },
        Phase::Resolved => {
            &&& s.player.len() >= 2
            &&& s.dealer.len() >= 1
            &&& hand_total(s.player) <= BUST_LIMIT
            &&& hand_total(s.dealer) >= DEALER_STAND
        },
        Phase::Restart => true,
        Phase::Terminated => true,
    }
}

/// The deal: two cards to the player, then one to the dealer. A natural
/// blackjack of the player ends the round at once.
pub open spec fn after_deal(s: RoundState, draws: Draws) -> (RoundState, Action) {
    let player = s.player.push(catalog_card(draws.0 as int)).push(catalog_card(draws.1 as int));
    let dealer = s.dealer.push(catalog_card(draws.2 as int));
    let outcome = round_outcome(player, dealer);
    if outcome.0 && outcome.1 {
        (RoundState { player, dealer, phase: Phase::Restart }, Action::Announce(Verdict::Blackjack))
    } else {
        (RoundState { player, dealer, phase: Phase::PlayerDeciding }, Action::AskDecision)
    }
}

/// The player's reply. A hit draws one card for the player, and ends the
/// round if the player is bust with it. A stay hands over to the dealer. Any
/// other reply changes nothing.
pub open spec fn after_reply(s: RoundState, decision: Decision, draw: usize) -> (
    RoundState,
    Action,
) {
    match decision {
        Decision::Hit => {
            let player = s.player.push(catalog_card(draw as int));
            if hand_total(player) > BUST_LIMIT {
                (
                    RoundState { player, dealer: s.dealer, phase: Phase::Restart },
                    Action::Announce(Verdict::PlayerBust),
                )
            } else {
                (
                    RoundState { player, dealer: s.dealer, phase: Phase::PlayerDeciding },
                    Action::AskDecision,
                )
            }
        },
        Decision::Stay => (
            RoundState { player: s.player, dealer: s.dealer, phase: Phase::DealerPlaying },
            Action::ShowDealer { pause_ms: LONG_PAUSE_MS },
        ),
        Decision::Invalid => (s, Action::RejectReply),
    }
}

/// The dealer's move: below sixteen the dealer draws one card, from sixteen
/// on the dealer stands and the round is resolved.
pub open spec fn after_dealer_move(s: RoundState, draw: usize) -> (RoundState, Action) {
    if hand_total(s.dealer) < DEALER_STAND {
        let dealer = s.dealer.push(catalog_card(draw as int));
        (
            RoundState { player: s.player, dealer, phase: Phase::DealerPlaying },
            Action::ShowDealer {
                pause_ms: if hand_total(dealer) < DEALER_STAND {
                    SHORT_PAUSE_MS
                } else {
                    LONG_PAUSE_MS
                },
            },
        )
    } else {
        (RoundState { player: s.player, dealer: s.dealer, phase: Phase::Resolved }, Action::Proceed)
    }
}

/// The answer to the play-again question: a refusal ends the game, anything
/// else clears both hands for a new deal.
pub open spec fn after_restart_reply(s: RoundState, refusal: bool) -> (RoundState, Action) {
    if refusal {
        (RoundState { player: s.player, dealer: s.dealer, phase: Phase::Terminated }, Action::Quit)
    } else {
        (initial_state(), Action::Proceed)
    }
}

/// The state that follows `s`, and what is to be done before the next step.
///
/// `line` is the reply that was read, for the phases that ask for one, and
/// `draws` are the places in the catalog of the cards that are drawn, for the
/// phases that draw.
pub open spec fn next(s: RoundState, line: Seq<char>, draws: Draws) -> (RoundState, Action) {
    match s.phase {
        Phase::Dealing => after_deal(s, draws),
        Phase::PlayerDeciding => after_reply(s, decision_of(line), draws.0),
        Phase::DealerPlaying => after_dealer_move(s, draws.0),
        Phase::Resolved => (
            RoundState { player: s.player, dealer: s.dealer, phase: Phase::Restart },
            Action::Announce(closing_verdict(s.player, s.dealer)),
        ),
        Phase::Restart => after_restart_reply(s, is_refusal(line)),
        Phase::Terminated => (s, Action::Quit),
    }
}

/// An upper bound on the moves that the dealer still has to make: it falls
/// with every move of the dealer, and is zero outside the dealer's turn.
pub open spec fn dealer_moves_left(s: RoundState) -> nat {
    if s.phase != Phase::DealerPlaying {
        0
    } else if hard_total(s.dealer) < DEALER_STAND {
        (DEALER_STAND + 1 - hard_total(s.dealer)) as nat
    } else {
        1
    }
}

/// How the state after the dealer's turn relates to the state before it.
///
/// The player's hand is untouched and the dealer's hand has only grown, by
/// catalog cards. The dealer has reached sixteen, and had not reached it
/// before any of the cards that were added: not one card too many was drawn.
pub open spec fn dealer_played(before: RoundState, after: RoundState) -> bool {
    &&& after.phase == Phase::Resolved
    &&& after.player == before.player
    &&& before.dealer.len() <= after.dealer.len()
    &&& after.dealer.take(before.dealer.len() as int) == before.dealer
    &&& forall|n: int|
        before.dealer.len() <= n < after.dealer.len() ==> in_catalog(#[trigger] after.dealer[n])
    &&& forall|n: int|
        before.dealer.len() <= n < after.dealer.len() ==> hand_total(
            #[trigger] after.dealer.take(n),
        ) < DEALER_STAND
    &&& hand_total(after.dealer) >= DEALER_STAND
}

/// A round in play: the catalog, the two hands and the phase.
pub struct Round {
    catalog: Vec<PlayCard>,
    player: Vec<PlayCard>,
    dealer: Vec<PlayCard>,
    phase: Phase,
}

impl View for Round {
    type V = RoundState;

    closed spec fn view(&self) -> RoundState {
        RoundState { player: self.player@, dealer: self.dealer@, phase: self.phase }
    }
}

impl Round {
    #[verifier::type_invariant]
    spec fn inv(self) -> bool {
        self.catalog@ == catalog_cards() && well_formed(self@)
    }

    /// A game before its first deal.
    pub fn new() -> (round: Round)
        ensures
            round@ == initial_state(),
    {
        let mut catalog: Vec<PlayCard> = Vec::new();
        init_cards(&mut catalog);
        Round { catalog, player: Vec::new(), dealer: Vec::new(), phase: Phase::Dealing }
    }

    /// The phase the round is in.
    pub fn phase(&self) -> (phase: Phase)
        ensures
            phase == self@.phase,
    {
        self.phase
    }

    /// The player's hand.
    pub fn player(&self) -> (hand: &Vec<PlayCard>)
        ensures
            hand@ == self@.player,
    {
        &self.player
    }

    /// The dealer's hand.
    pub fn dealer(&self) -> (hand: &Vec<PlayCard>)
        ensures
            hand@ == self@.dealer,
    {
        &self.dealer
    }

    /// Takes one step with the given reply and the given draws.
    pub fn advance(self, line: &str, draws: Draws) -> (stepped: (Round, Action))
        requires
            valid_draws(draws),
        ensures
            (stepped.0@, stepped.1) == next(self@, line@, draws),
            well_formed(stepped.0@),
    {
        proof {
            use_type_invariant(&self);
            lemma_next_well_formed(self@, line@, draws);
        }
        let Round { catalog, mut player, mut dealer, phase } = self;
        match phase {
            Phase::Dealing => {
                add_card_at(&mut player, &catalog, draws.0);
                add_card_at(&mut player, &catalog, draws.1);
                add_card_at(&mut dealer, &catalog, draws.2);
                let outcome = result(&player, &dealer);
                if outcome.0 && outcome.1 {
                    (
                        Round { catalog, player, dealer, phase: Phase::Restart },
                        Action::Announce(Verdict::Blackjack),
                    )
                } else {
                    (
                        Round { catalog, player, dealer, phase: Phase::PlayerDeciding },
                        Action::AskDecision,
                    )
                }
            },
            Phase::PlayerDeciding => {
                match parse_decision(line) {
                    Decision::Hit => {
                        add_card_at(&mut player, &catalog, draws.0);
                        if get_total_value(&player) > BUST_LIMIT {
                            (
                                Round { catalog, player, dealer, phase: Phase::Restart },
                                Action::Announce(Verdict::PlayerBust),
                            )
                        } else {
                            (
                                Round { catalog, player, dealer, phase: Phase::PlayerDeciding },
                                Action::AskDecision,
                            )
                        }
                    },
                    Decision::Stay => (
                        Round { catalog, player, dealer, phase: Phase::DealerPlaying },
                        Action::ShowDealer { pause_ms: LONG_PAUSE_MS },
                    ),
                    Decision::Invalid => (
                        Round { catalog, player, dealer, phase: Phase::PlayerDeciding },
                        Action::RejectReply,
                    ),
                }
            },
            Phase::DealerPlaying => {
                if get_total_value(&dealer) < DEALER_STAND {
                    add_card_at(&mut dealer, &catalog, draws.0);
                    let pause_ms = if get_total_value(&dealer) < DEALER_STAND {
                        SHORT_PAUSE_MS
                    } else {
                        LONG_PAUSE_MS
                    };
                    (
                        Round { catalog, player, dealer, phase: Phase::DealerPlaying },
                        Action::ShowDealer { pause_ms },
                    )
                } else {
                    (Round { catalog, player, dealer, phase: Phase::Resolved }, Action::Proceed)
                }
            },
            Phase::Resolved => {
                let verdict = closing(&player, &dealer);
                (
                    Round { catalog, player, dealer, phase: Phase::Restart },
                    Action::Announce(verdict),
                )
            },
            Phase::Restart => {
                if refuses(line) {
                    (Round { catalog, player, dealer, phase: Phase::Terminated }, Action::Quit)
                } else {
                    player.clear();
                    dealer.clear();
                    (Round { catalog, player, dealer, phase: Phase::Dealing }, Action::Proceed)
                }
            },
            Phase::Terminated => (
                Round { catalog, player, dealer, phase: Phase::Terminated },
                Action::Quit,
            ),
        }
    }

    /// Takes one step with the given reply, drawing at random the cards that
    /// the step needs.
    pub fn step(self, line: &str) -> (stepped: (Round, Action))
        ensures
            exists|draws: Draws|
                valid_draws(draws) && (stepped.0@, stepped.1) == #[trigger] next(
                    self@,
                    line@,
                    draws,
                ),
            well_formed(stepped.0@),
    {
        proof {
            use_type_invariant(&self);
        }
        let size = self.catalog.len();
        let draws: Draws = match self.phase {
            Phase::Dealing => (random_below(size), random_below(size), random_below(size)),
            Phase::PlayerDeciding => match parse_decision(line) {
                Decision::Hit => (random_below(size), 0, 0),
                _ => (0, 0, 0),
            },
            Phase::DealerPlaying => if get_total_value(&self.dealer) < DEALER_STAND {
                (random_below(size), 0, 0)
            } else {
                (0, 0, 0)
            },
            _ => (0, 0, 0),
        };
        self.advance(line, draws)
    }

    /// Plays the dealer's turn to its end: the dealer draws at random while
    /// below sixteen, and then stands. Outside the dealer's turn nothing changes.
    pub fn play_dealer(self) -> (played: Round)
        ensures
            self@.phase == Phase::DealerPlaying ==> dealer_played(self@, played@),
            self@.phase != Phase::DealerPlaying ==> played@ == self@,
            well_formed(played@),
    {
        proof {
            use_type_invariant(&self);
        }
        let ghost before = self@;
        let mut round = self;
        while round.phase == Phase::DealerPlaying
            invariant
                well_formed(round@),
                before.phase != Phase::DealerPlaying ==> round@ == before,
                before.phase == Phase::DealerPlaying ==> {
                    &&& round@.phase == Phase::DealerPlaying || round@.phase == Phase::Resolved
                    &&& round@.player == before.player
                    &&& before.dealer.len() <= round@.dealer.len()
                    &&& round@.dealer.take(before.dealer.len() as int) == before.dealer
                    &&& forall|n: int|
                        before.dealer.len() <= n < round@.dealer.len() ==> in_catalog(
                            #[trigger] round@.dealer[n],
                        )
                    &&& forall|n: int|
                        before.dealer.len() <= n < round@.dealer.len() ==> hand_total(
                            #[trigger] round@.dealer.take(n),
                        ) < DEALER_STAND
                },
            decreases dealer_moves_left(round@),
        {
            let ghost earlier = round@;
            let (stepped, action) = round.step("");
            proof {
                let draws = choose|draws: Draws|
                    valid_draws(draws) && (stepped@, action) == #[trigger] next(
                        earlier,
                        ""@,
                        draws,
                    );
                lemma_dealer_move(earlier, ""@, draws);
                if hand_total(earlier.dealer) < DEALER_STAND {
                    let card = catalog_card(draws.0 as int);
                    assert(stepped@.dealer.take(before.dealer.len() as int)
                        =~= earlier.dealer.take(before.dealer.len() as int));
                    assert forall|n: int|
                        before.dealer.len() <= n < stepped@.dealer.len() implies hand_total(
                        #[trigger] stepped@.dealer.take(n),
                    ) < DEALER_STAND by {
                        if n < earlier.dealer.len() {
                            assert(stepped@.dealer.take(n) =~= earlier.dealer.take(n));
                        } else {
                            assert(stepped@.dealer.take(n) =~= earlier.dealer);
                        }
                    }
                }
            }
            round = stepped;
        }
        round
    }
}

/// Every card of the catalog is a catalog card.
pub proof fn lemma_catalog_card_in_catalog(i: int)
    requires
        0 <= i < CATALOG_SIZE,
    ensures
        in_catalog(catalog_card(i)),
        catalog_cards()[i] == catalog_card(i),
{
}

/// A hand of catalog cards stays one when a catalog card is added.
proof fn lemma_push_from_catalog(hand: Seq<PlayCard>, card: PlayCard)
    requires
        from_catalog(hand),
        in_catalog(card),
    ensures
        from_catalog(hand.push(card)),
{
    assert forall|i: int| 0 <= i < hand.push(card).len() implies in_catalog(
        #[trigger] hand.push(card)[i],
    ) by {
        if i < hand.len() {
            assert(hand.push(card)[i] == hand[i]);
        }
    }
}

/// Two catalog cards never score more than twenty-one.
proof fn lemma_two_cards_not_bust(first: PlayCard, second: PlayCard)
    requires
        in_catalog(first),
        in_catalog(second),
    ensures
        hand_total(Seq::<PlayCard>::empty().push(first).push(second)) <= BUST_LIMIT,
{
    let none = Seq::<PlayCard>::empty();
    lemma_sums_with_card(none, first);
    lemma_sums_with_card(none.push(first), second);
    lemma_hand_total_closed_form(none.push(first).push(second));
}

/// A step from a well-formed state, with draws out of the catalog, leads to
/// a well-formed state.
pub proof fn lemma_next_well_formed(s: RoundState, line: Seq<char>, draws: Draws)
    requires
        well_formed(s),
        valid_draws(draws),
    ensures
        well_formed(next(s, line, draws).0),
{
    let first = catalog_card(draws.0 as int);
    let second = catalog_card(draws.1 as int);
    let third = catalog_card(draws.2 as int);
    lemma_catalog_card_in_catalog(draws.0 as int);
    lemma_catalog_card_in_catalog(draws.1 as int);
    lemma_catalog_card_in_catalog(draws.2 as int);
    match s.phase {
        Phase::Dealing => {
            assert(s.player =~= Seq::<PlayCard>::empty());
            lemma_push_from_catalog(s.player, first);
            lemma_push_from_catalog(s.player.push(first), second);
            lemma_push_from_catalog(s.dealer, third);
            lemma_two_cards_not_bust(first, second);
        },
        Phase::PlayerDeciding => {
            lemma_push_from_catalog(s.player, first);
        },
        Phase::DealerPlaying => {
            lemma_push_from_catalog(s.dealer, first);
        },
        _ => {},
    }
}

/// The dealer's move. Below sixteen the dealer draws exactly one card and
/// stays in turn; from sixteen on the dealer draws nothing and the round is
/// resolved. The player's hand is never touched. Either way the bound on the
/// moves that are left falls, so the dealer's turn comes to an end.
pub proof fn lemma_dealer_move(s: RoundState, line: Seq<char>, draws: Draws)
    requires
        s.phase == Phase::DealerPlaying,
        valid_draws(draws),
    ensures
        next(s, line, draws).0.player == s.player,
        hand_total(s.dealer) < DEALER_STAND ==> {
            &&& next(s, line, draws).0.phase == Phase::DealerPlaying
            &&& next(s, line, draws).0.dealer == s.dealer.push(catalog_card(draws.0 as int))
        },
        hand_total(s.dealer) >= DEALER_STAND ==> {
            &&& next(s, line, draws).0.phase == Phase::Resolved
            &&& next(s, line, draws).0.dealer == s.dealer
        },
        dealer_moves_left(next(s, line, draws).0) < dealer_moves_left(s),
{
    lemma_catalog_card_in_catalog(draws.0 as int);
    lemma_sums_with_card(s.dealer, catalog_card(draws.0 as int));
    lemma_hand_total_closed_form(s.dealer);
}

/// The deal gives the player exactly the two cards drawn for the player, and
/// the dealer exactly the one card drawn for the dealer.
pub proof fn lemma_deal(s: RoundState, line: Seq<char>, draws: Draws)
    requires
        well_formed(s),
        s.phase == Phase::Dealing,
    ensures
        next(s, line, draws).0.player == seq![
            catalog_card(draws.0 as int),
            catalog_card(draws.1 as int),
        ],
        next(s, line, draws).0.dealer == seq![catalog_card(draws.2 as int)],
        next(s, line, draws).0.player.len() == 2,
        next(s, line, draws).0.dealer.len() == 1,
{
    assert(next(s, line, draws).0.player =~= seq![
        catalog_card(draws.0 as int),
        catalog_card(draws.1 as int),
    ]);
    assert(next(s, line, draws).0.dealer =~= seq![catalog_card(draws.2 as int)]);
}

/// A hit appends exactly one card to the player's hand and leaves the
/// dealer's hand as it was.
pub proof fn lemma_hit(s: RoundState, line: Seq<char>, draws: Draws)
    requires
        s.phase == Phase::PlayerDeciding,
        decision_of(line) == Decision::Hit,
    ensures
        next(s, line, draws).0.player == s.player.push(catalog_card(draws.0 as int)),
        next(s, line, draws).0.dealer == s.dealer,
{
}

/// A stay changes neither hand and hands over to the dealer.
pub proof fn lemma_stay(s: RoundState, line: Seq<char>, draws: Draws)
    requires
        s.phase == Phase::PlayerDeciding,
        decision_of(line) == Decision::Stay,
    ensures
        next(s, line, draws).0.player == s.player,
        next(s, line, draws).0.dealer == s.dealer,
        next(s, line, draws).0.phase == Phase::DealerPlaying,
{
}

/// A reply that is neither a hit nor a stay changes nothing.
pub proof fn lemma_invalid_reply(s: RoundState, line: Seq<char>, draws: Draws)
    requires
        s.phase == Phase::PlayerDeciding,
        decision_of(line) == Decision::Invalid,
    ensures
        next(s, line, draws) == (s, Action::RejectReply),
{
}

/// After the play-again question, any reply but a refusal leaves both hands
/// empty, with a total of zero each, and the deal to come.
pub proof fn lemma_restart_clears(s: RoundState, line: Seq<char>, draws: Draws)
    requires
        s.phase == Phase::Restart,
        !is_refusal(line),
    ensures
        next(s, line, draws).0.phase == Phase::Dealing,
        next(s, line, draws).0.player.len() == 0,
        next(s, line, draws).0.dealer.len() == 0,
        hand_total(next(s, line, draws).0.player) == 0,
        hand_total(next(s, line, draws).0.dealer) == 0,
{
}

} // verus!
