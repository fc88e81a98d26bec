//! The game aggregate: it sequences hands, owns the dealer rotation and
//! the history of completed hands, and scores the match.
//!
//! Every operation is a pure function from the current value and an input
//! to a new value or an error; the caller folds the result back. A hand's
//! lifecycle ends only by completing, which atomically appends it to the
//! history, rotates the dealer, and deals the next hand.

use vstd::prelude::*;
use crate::errors::{GameError, HandError};
use crate::hand::{
    spec_state_after_meld, spec_state_after_tricks, spec_infer_us, spec_infer_them,
    spec_tricks_ok, spec_us_total, spec_them_total, spec_state_bidder, spec_valid_bid,
    Hand, MAX_BID_AMOUNT, MAX_MELD_POINTS,
};
use crate::ids::GameId;
use crate::value::{spec_next_clockwise, spec_team, GameState, HandState, Player, Suit, Team};

verus! {

/// A team wins once its running total reaches this threshold.
pub const WINNING_SCORE: i32 = 500;

/// The `Us` running total over a history of hands, counting an absent or
/// in-play total as zero.
pub open spec fn spec_sum_us(hands: Seq<Hand>) -> int
    decreases hands.len(),
{
    if hands.len() == 0 {
        0
    } else {
        spec_sum_us(hands.drop_last()) + spec_us_total(hands.last().spec_state())
    }
}

/// The `Them` running total over a history of hands.
pub open spec fn spec_sum_them(hands: Seq<Hand>) -> int
    decreases hands.len(),
{
    if hands.len() == 0 {
        0
    } else {
        spec_sum_them(hands.drop_last()) + spec_them_total(hands.last().spec_state())
    }
}

/// Appending one hand to a history adds exactly that hand's totals to the
/// running totals; with the base case of zero over an empty history, the
/// running totals are the arithmetic sums of the per-hand totals.
pub proof fn lemma_running_totals_append(hands: Seq<Hand>, h: Hand)
    ensures
        spec_sum_us(hands.push(h)) == spec_sum_us(hands) + spec_us_total(h.spec_state()),
        spec_sum_them(hands.push(h)) == spec_sum_them(hands) + spec_them_total(h.spec_state()),
{
    assert(hands.push(h).drop_last() =~= hands);
}

/// One game: an identifier, the dealer of the hand in flight, the game's
/// lifecycle state, the chronological history of completed hands, and at
/// most one current hand.
#[derive(Debug, Clone, PartialEq, Eq)]
pub struct Game {
    pub(crate) id: GameId,
    current_dealer: Player,
    state: GameState,
    completed_hands: Vec<Hand>,
    current_hand: Option<Hand>,
}

impl Game {
    /// The game's identifier.
    pub closed spec fn spec_id(self) -> GameId {
        self.id
    }

    /// The seat dealing the current hand.
    pub closed spec fn spec_dealer(self) -> Player {
        self.current_dealer
    }

    /// The game's lifecycle state.
    pub closed spec fn spec_game_state(self) -> GameState {
        self.state
    }

    /// The history of completed hands, in chronological order.
    pub closed spec fn spec_completed(self) -> Seq<Hand> {
        self.completed_hands@
    }

    /// The hand in flight, if one has been dealt.
    pub closed spec fn spec_current(self) -> Option<Hand> {
        self.current_hand
    }

    /// Well-formedness: a game in progress always has a current hand, and
    /// the current hand is itself well-formed. Constructors establish it
    /// and every operation preserves it.
    pub open spec fn wf(self) -> bool {
        &&& (self.spec_game_state() is InProgress ==> self.spec_current() is Some)
        &&& (self.spec_current() matches Some(h) ==> h.wf())
    }

    /// The result `g` keeps everything of `self` but the current hand.
    pub open spec fn spec_replaces_current(self, g: Game) -> bool {
        &&& g.spec_id() == self.spec_id()
        &&& g.spec_game_state() == self.spec_game_state()
        &&& g.spec_dealer() == self.spec_dealer()
        &&& g.spec_completed() == self.spec_completed()
    }

    /// The result `g` folded a completed hand into history: the history
    /// grew by that one hand, the dealer rotated clockwise, and a fresh
    /// hand dealt by the new dealer is in flight.
    pub open spec fn spec_folded_from(self, g: Game) -> bool {
        &&& g.spec_id() == self.spec_id()
        &&& g.spec_game_state() == self.spec_game_state()
        &&& g.spec_dealer() == spec_next_clockwise(self.spec_dealer())
        &&& g.spec_completed().len() == self.spec_completed().len() + 1
        &&& g.spec_completed() == self.spec_completed().push(g.spec_completed().last())
        &&& (g.spec_current() matches Some(nh) && nh.spec_fresh(spec_next_clockwise(self.spec_dealer())))
    }

    /// A new game waiting to start, with the given starting dealer, no
    /// history and no hand in flight.
    pub fn new(dealer: Player) -> (g: Game)
        ensures
            g.spec_dealer() == dealer,
            g.spec_game_state() == GameState::WaitingToStart,
            g.spec_completed() == Seq::<Hand>::empty(),
            g.spec_current() is None,
            g.wf(),
    {
        let g = Game {
            id: GameId::new(),
            current_dealer: dealer,
            state: GameState::WaitingToStart,
            completed_hands: Vec::new(),
            current_hand: None,
        };
        proof {
            assert(g.spec_completed() =~= Seq::<Hand>::empty());
        }
        g
    }

    /// The game's identifier.
    pub fn id(&self) -> (r: GameId)
        ensures
            r == self.spec_id(),
    {
        self.id
    }

    /// The seat dealing the current hand.
    pub fn current_dealer(&self) -> (r: Player)
        ensures
            r == self.spec_dealer(),
    {
        self.current_dealer
    }

    /// The game's lifecycle state.
    pub fn state(&self) -> (r: GameState)
        ensures
            r == self.spec_game_state(),
    {
        self.state
    }

    /// A copy of the history of completed hands, oldest first.
    pub fn completed_hands(&self) -> (r: Vec<Hand>)
        ensures
            r@ == self.spec_completed(),
    {
        Self::copy_hands(&self.completed_hands)
    }

    /// The hand in flight, if one has been dealt.
    pub fn current_hand(&self) -> (r: Option<Hand>)
        ensures
            r == self.spec_current(),
    {
        self.current_hand
    }

    /// The same game with the hand in flight replaced: test scaffolding.
    pub fn with_current_hand(self, hand: Option<Hand>) -> (g: Game)
        ensures
            self.spec_replaces_current(g),
            g.spec_current() == hand,
    {
        Game { current_hand: hand, ..self }
    }

    /// The same game with its lifecycle state replaced: test scaffolding.
    pub fn with_state(self, state: GameState) -> (g: Game)
        ensures
            g.spec_id() == self.spec_id(),
            g.spec_dealer() == self.spec_dealer(),
            g.spec_completed() == self.spec_completed(),
            g.spec_current() == self.spec_current(),
            g.spec_game_state() == state,
    {
        Game { state, ..self }
    }

    /// The seat that will deal the next hand.
    fn next_dealer(&self) -> (r: Player)
        ensures
            r == spec_next_clockwise(self.spec_dealer()),
    {
        self.current_dealer.next_clockwise()
    }

    /// Deals the first hand. Rejected exactly when the game is already in
    /// progress: a game may only have one hand in flight. On success the
    /// game is in progress with a fresh hand dealt by the current dealer.
    pub fn start_new_hand(&self) -> (r: Result<Game, GameError>)
        ensures
            r is Ok <==> !(self.spec_game_state() is InProgress),
            self.spec_game_state() is InProgress ==> (r matches Err(e)
                && e matches GameError::InvalidStateTransition(m) && m@
                == "Cannot start new hand when game is already in progress"@),
            r matches Ok(g) ==> {
                &&& g.spec_id() == self.spec_id()
                &&& g.spec_dealer() == self.spec_dealer()
                &&& g.spec_game_state() == GameState::InProgress
                &&& g.spec_completed() == self.spec_completed()
                &&& (g.spec_current() matches Some(h) && h.spec_fresh(self.spec_dealer()))
                &&& g.wf()
            },
    {
        match self.state {
            GameState::InProgress => Err(
                GameError::InvalidStateTransition(
                    "Cannot start new hand when game is already in progress".to_owned(),
                ),
            ),
            _ => {
                let new_hand = Hand::new(self.current_dealer);
                Ok(
                    Game {
                        id: self.id,
                        current_dealer: self.current_dealer,
                        state: GameState::InProgress,
                        completed_hands: Self::copy_hands(&self.completed_hands),
                        current_hand: Some(new_hand),
                    },
                )
            },
        }
    }

    /// The running totals of both teams: the arithmetic sums of the
    /// per-hand totals over the completed hands, treating absent as zero.
    /// `(0, 0)` for a game with no completed hands.
    pub fn running_totals(&self) -> (r: (i32, i32))
        requires
            self.spec_completed().len() < 4294967296,
            -2147483648 <= spec_sum_us(self.spec_completed()) <= 2147483647,
            -2147483648 <= spec_sum_them(self.spec_completed()) <= 2147483647,
        ensures
            r.0 as int == spec_sum_us(self.spec_completed()),
            r.1 as int == spec_sum_them(self.spec_completed()),
    {
        let mut us_total: i64 = 0;
        let mut them_total: i64 = 0;
        let n = self.completed_hands.len();
        let mut i: usize = 0;
        while i < n
            invariant
                i <= n,
                n == self.completed_hands@.len(),
                n < 4294967296,
                us_total as int == spec_sum_us(self.completed_hands@.take(i as int)),
                them_total as int == spec_sum_them(self.completed_hands@.take(i as int)),
                -(i as int) * 2147483648 <= us_total as int <= (i as int) * 2147483648,
                -(i as int) * 2147483648 <= them_total as int <= (i as int) * 2147483648,
            decreases n - i,
        {
            let h = &self.completed_hands[i];
            proof {
                assert(self.completed_hands@.take(i as int + 1).drop_last() =~= self
                    .completed_hands@.take(i as int));
                assert(self.completed_hands@.take(i as int + 1).last() == self.completed_hands@[i as int]);
            }
            us_total = us_total + h.us_total() as i64;
            them_total = them_total + h.them_total() as i64;
            i = i + 1;
        }
        proof {
            assert(self.completed_hands@.take(n as int) =~= self.completed_hands@);
        }
        (us_total as i32, them_total as i32)
    }

    /// Places a bid on the current hand; an error from the hand surfaces
    /// wrapped and the game is unchanged.
    pub fn record_bid(&self, bidder: Player, amount: u32) -> (r: Result<Game, GameError>)
        requires
            self.wf(),
            amount <= MAX_BID_AMOUNT,
        ensures
            r is Ok <==> (self.spec_current() matches Some(h) && h.spec_state() is WaitingForBid
                && spec_valid_bid(amount)),
            self.spec_current() is None ==> (r matches Err(e) && e matches
                GameError::InvalidOperation(m) && m@ == "No current hand"@),
            self.spec_current() matches Some(h) ==> (!(h.spec_state() is WaitingForBid
                && spec_valid_bid(amount)) ==> (r matches Err(e) && e matches
                GameError::HandError(he) && (if h.spec_state() is WaitingForBid {
                he matches HandError::InvalidBid(m) && m@
                    == "Invalid bid amount. Must follow increment rules"@
            } else {
                he matches HandError::InvalidStateTransition(m) && m@
                    == "Hand is not waiting for bid"@
            }))),
            r matches Ok(g) ==> self.spec_current() matches Some(h) && {
                &&& self.spec_replaces_current(g)
                &&& (g.spec_current() matches Some(h2) && {
                    &&& h2.spec_id() == h.spec_id()
                    &&& h2.spec_dealer() == h.spec_dealer()
                    &&& h2.spec_bidder() == Some(bidder)
                    &&& h2.spec_bid_amount() == Some(amount)
                    &&& h2.spec_state() == (HandState::WaitingForTrump { bidder, bid_amount: amount })
                })
                &&& g.wf()
            },
    {
        match &self.current_hand {
            None => Err(GameError::InvalidOperation("No current hand".to_owned())),
            Some(current_hand) => match current_hand.place_bid(bidder, amount) {
                Ok(new_hand) => Ok(
                    Game {
                        id: self.id,
                        current_dealer: self.current_dealer,
                        state: self.state,
                        completed_hands: Self::copy_hands(&self.completed_hands),
                        current_hand: Some(new_hand),
                    },
                ),
                Err(e) => Err(GameError::HandError(e)),
            },
        }
    }

    /// Declares trump on the current hand; an error from the hand surfaces
    /// wrapped and the game is unchanged.
    pub fn declare_trump(&self, trump: Suit) -> (r: Result<Game, GameError>)
        requires
            self.wf(),
        ensures
            r is Ok <==> (self.spec_current() matches Some(h)
                && h.spec_state() is WaitingForTrump),
            self.spec_current() is None ==> (r matches Err(e) && e matches
                GameError::InvalidOperation(m) && m@ == "No current hand"@),
            self.spec_current() matches Some(h) ==> (!(h.spec_state() is WaitingForTrump) ==> (
            r matches Err(e) && e matches GameError::HandError(he)
                && he matches HandError::InvalidStateTransition(m) && m@
                == "Hand is not waiting for trump"@)),
            r matches Ok(g) ==> self.spec_current() matches Some(h)
                && h.spec_state() matches HandState::WaitingForTrump { bidder, bid_amount } && {
                &&& self.spec_replaces_current(g)
                &&& (g.spec_current() matches Some(h2) && h.spec_steps_to(
                    h2,
                    if trump == Suit::NoMarriage {
                        HandState::NoMarriage { bidder, bid_amount }
                    } else {
                        HandState::WaitingForMeld { bidder, bid_amount, trump }
                    },
                ))
                &&& g.wf()
            },
    {
        match &self.current_hand {
            None => Err(GameError::InvalidOperation("No current hand".to_owned())),
            Some(current_hand) => match current_hand.declare_trump(trump) {
                Ok(new_hand) => Ok(
                    Game {
                        id: self.id,
                        current_dealer: self.current_dealer,
                        state: self.state,
                        completed_hands: Self::copy_hands(&self.completed_hands),
                        current_hand: Some(new_hand),
                    },
                ),
                Err(e) => Err(GameError::HandError(e)),
            },
        }
    }

    /// Records meld on the current hand. If that completes the hand (the
    /// bidding team lost its stake at the meld step), the game folds it
    /// into history and deals the next hand; otherwise only the current
    /// hand advances.
    pub fn record_meld(&self, us: u32, them: u32) -> (r: Result<Game, GameError>)
        requires
            self.wf(),
            us <= MAX_MELD_POINTS,
            them <= MAX_MELD_POINTS,
        ensures
            r is Ok <==> (self.spec_current() matches Some(h) && (
            h.spec_state() is WaitingForMeld || h.spec_state() is NoMarriage)),
            self.spec_current() is None ==> (r matches Err(e) && e matches
                GameError::InvalidOperation(m) && m@ == "No current hand"@),
            self.spec_current() matches Some(h) ==> (!(h.spec_state() is WaitingForMeld
                || h.spec_state() is NoMarriage) ==> (r matches Err(e) && e matches
                GameError::HandError(he) && he matches HandError::InvalidStateTransition(m) && m@
                == "Hand is not waiting for meld"@)),
            r matches Ok(g) ==> self.spec_current() matches Some(h) && {
                let s2 = spec_state_after_meld(h.spec_state(), us, them);
                &&& (if s2 is Completed {
                    &&& self.spec_folded_from(g)
                    &&& h.spec_steps_to(g.spec_completed().last(), s2)
                } else {
                    &&& self.spec_replaces_current(g)
                    &&& (g.spec_current() matches Some(h2) && h.spec_steps_to(h2, s2))
                })
                &&& g.wf()
            },
    {
        match &self.current_hand {
            None => Err(GameError::InvalidOperation("No current hand".to_owned())),
            Some(current_hand) => match current_hand.record_meld(us, them) {
                Ok(new_hand) => match new_hand.state() {
                    HandState::Completed { .. } => Ok(self.complete_hand_and_start_new(new_hand)),
                    _ => Ok(
                        Game {
                            id: self.id,
                            current_dealer: self.current_dealer,
                            state: self.state,
                            completed_hands: Self::copy_hands(&self.completed_hands),
                            current_hand: Some(new_hand),
                        },
                    ),
                },
                Err(e) => Err(GameError::HandError(e)),
            },
        }
    }

    /// Records tricks on the current hand; success always completes the
    /// hand, so the game always folds it into history and deals the next
    /// hand.
    pub fn record_tricks(&self, us: u32, them: u32) -> (r: Result<Game, GameError>)
        requires
            self.wf(),
        ensures
            r is Ok <==> (self.spec_current() matches Some(h)
                && h.spec_state() is WaitingForTricks && spec_tricks_ok(us, them)),
            self.spec_current() is None ==> (r matches Err(e) && e matches
                GameError::InvalidOperation(m) && m@ == "No current hand to record tricks"@),
            (self.spec_current() is Some && !spec_tricks_ok(us, them)) ==> (r matches Err(e)
                && e == GameError::HandError(HandError::InvalidTricks(us, them))),
            self.spec_current() matches Some(h) ==> ((spec_tricks_ok(us, them)
                && !(h.spec_state() is WaitingForTricks)) ==> (r matches Err(e) && e matches
                GameError::HandError(he) && he matches HandError::InvalidStateTransition(m) && m@
                == "Hand is not waiting for tricks"@)),
            r matches Ok(g) ==> self.spec_current() matches Some(h) && {
                let s2 = spec_state_after_tricks(
                    h.spec_state(),
                    spec_infer_us(us, them) as u32,
                    spec_infer_them(us, them) as u32,
                );
                &&& self.spec_folded_from(g)
                &&& h.spec_steps_to(g.spec_completed().last(), s2)
                &&& g.wf()
            },
    {
        match &self.current_hand {
            None => Err(
                GameError::InvalidOperation("No current hand to record tricks".to_owned()),
            ),
            Some(current_hand) => match current_hand.record_tricks(us, them) {
                Ok(new_hand) => Ok(self.complete_hand_and_start_new(new_hand)),
                Err(e) => Err(GameError::HandError(e)),
            },
        }
    }

    /// Folds a completed hand into history: appends it, rotates the
    /// dealer, and deals a fresh hand by the new dealer. Shared by the two
    /// operations that can complete a hand; the game's lifecycle state
    /// stays `InProgress`.
    fn complete_hand_and_start_new(&self, new_hand: Hand) -> (g: Game)
        ensures
            self.spec_folded_from(g),
            g.spec_completed().last() == new_hand,
            g.wf(),
    {
        let mut new_completed_hands = Self::copy_hands(&self.completed_hands);
        new_completed_hands.push(new_hand);

        let next_dealer = self.next_dealer();
        let new_current_hand = Hand::new(next_dealer);

        Game {
            id: self.id,
            current_dealer: next_dealer,
            state: self.state,
            completed_hands: new_completed_hands,
            current_hand: Some(new_current_hand),
        }
    }

    /// Whether the game is over: true exactly when either team's running
    /// total has reached the winning score.
    pub fn is_game_complete(&self) -> (r: bool)
        requires
            self.spec_completed().len() < 4294967296,
            -2147483648 <= spec_sum_us(self.spec_completed()) <= 2147483647,
            -2147483648 <= spec_sum_them(self.spec_completed()) <= 2147483647,
        ensures
            r == (spec_sum_us(self.spec_completed()) >= WINNING_SCORE || spec_sum_them(
                self.spec_completed(),
            ) >= WINNING_SCORE),
    {
        let (us_total, them_total) = self.running_totals();
        us_total >= WINNING_SCORE || them_total >= WINNING_SCORE
    }

    /// The winning team, absent until the game is complete. When exactly
    /// one team has reached the winning score it wins; when both crossed
    /// it in the same settlement, the team of the last completed hand's
    /// bidder wins, and failing a determinable bidder, the strictly higher
    /// running total.
    pub fn winner(&self) -> (r: Option<Team>)
        requires
            self.spec_completed().len() < 4294967296,
            -2147483648 <= spec_sum_us(self.spec_completed()) <= 2147483647,
            -2147483648 <= spec_sum_them(self.spec_completed()) <= 2147483647,
        ensures
            r == self.spec_winner(),
    {
        if !self.is_game_complete() {
            return None;
        }

        let (us_total, them_total) = self.running_totals();

        if us_total >= WINNING_SCORE && them_total >= WINNING_SCORE {
            if self.completed_hands.len() > 0 {
                let last_hand = &self.completed_hands[self.completed_hands.len() - 1];
                proof {
                    assert(self.completed_hands@[self.completed_hands@.len() - 1] == self
                        .spec_completed().last());
                }
                if let Some(bidder) = last_hand.bidder() {
                    return Some(bidder.team());
                }
            }
            if us_total > them_total {
                Some(Team::Us)
            } else {
                Some(Team::Them)
            }
        } else if us_total >= WINNING_SCORE {
            Some(Team::Us)
        } else {
            Some(Team::Them)
        }
    }

    /// The winner `winner` reports, as a function of the game value.
    pub open spec fn spec_winner(self) -> Option<Team> {
        let su = spec_sum_us(self.spec_completed());
        let st = spec_sum_them(self.spec_completed());
        if !(su >= WINNING_SCORE || st >= WINNING_SCORE) {
            None
        } else if su >= WINNING_SCORE && st >= WINNING_SCORE {
            if self.spec_completed().len() > 0 {
                match spec_state_bidder(self.spec_completed().last().spec_state()) {
                    Some(b) => Some(spec_team(b)),
                    None => if su > st {
                        Some(Team::Us)
                    } else {
                        Some(Team::Them)
                    },
                }
            } else {
                if su > st {
                    Some(Team::Us)
                } else {
                    Some(Team::Them)
                }
            }
        } else if su >= WINNING_SCORE {
            Some(Team::Us)
        } else {
            Some(Team::Them)
        }
    }

    /// Appends a synthetic completed hand with the given totals and
    /// bidder: test scaffolding for driving a game to known running
    /// totals.
    pub fn add_completed_hand_with_scores(&self, us_total: i32, them_total: i32, bidder: Player)
        -> (g: Game)
        ensures
            g.spec_id() == self.spec_id(),
            g.spec_dealer() == self.spec_dealer(),
            g.spec_game_state() == self.spec_game_state(),
            g.spec_current() == self.spec_current(),
            g.spec_completed().len() == self.spec_completed().len() + 1,
            g.spec_completed() == self.spec_completed().push(g.spec_completed().last()),
            g.spec_completed().last().spec_state() is Completed,
            spec_us_total(g.spec_completed().last().spec_state()) == us_total as int,
            spec_them_total(g.spec_completed().last().spec_state()) == them_total as int,
            spec_state_bidder(g.spec_completed().last().spec_state()) == Some(bidder),
            self.wf() ==> g.wf(),
    {
        let completed_hand = Hand::new(Player::South).set_state(
            HandState::Completed {
                bidder,
                bid_amount: 51,
                trump: Suit::Spades,
                us_meld: Some(20),
                them_meld: Some(20),
                us_tricks: Some(25),
                them_tricks: Some(25),
                us_total: Some(us_total),
                them_total: Some(them_total),
            },
        );

        let mut new_completed_hands = Self::copy_hands(&self.completed_hands);
        new_completed_hands.push(completed_hand);

        Game {
            id: self.id,
            current_dealer: self.current_dealer,
            state: self.state,
            completed_hands: new_completed_hands,
            current_hand: self.current_hand,
        }
    }

    /// An element-for-element copy of a history of hands.
    fn copy_hands(hands: &Vec<Hand>) -> (r: Vec<Hand>)
        ensures
            r@ == hands@,
    {
        let mut r: Vec<Hand> = Vec::new();
        let n = hands.len();
        let mut i: usize = 0;
        while i < n
            invariant
                i <= n,
                n == hands@.len(),
                r@ == hands@.take(i as int),
            decreases n - i,
        {
            r.push(hands[i]);
            proof {
                assert(hands@.take(i as int + 1) =~= hands@.take(i as int).push(hands@[i as int]));
            }
            i = i + 1;
        }
        proof {
            assert(hands@.take(n as int) =~= hands@);
        }
        r
    }
}

/// The winner is absent exactly until the game is complete: with both
/// running totals below the winning score there is no winner, and as soon
/// as either reaches it there is one.
pub proof fn lemma_winner_iff_complete(g: Game)
    ensures
        g.spec_winner() is Some <==> (spec_sum_us(g.spec_completed()) >= WINNING_SCORE
            || spec_sum_them(g.spec_completed()) >= WINNING_SCORE),
{
}

} // verus!
