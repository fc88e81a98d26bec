//! One hand's lifecycle: bidding, trump declaration, meld, tricks, and the
//! scoring arithmetic that completes it.
//!
//! Every transition returns a new `Hand` value and leaves the receiver
//! untouched, so a caller can retry or discard on error without corrupting
//! state.

use vstd::prelude::*;
use crate::errors::HandError;
use crate::ids::HandId;
use crate::value::{spec_team, HandState, Player, Suit, Team};

verus! {

/// The largest bid a hand can carry: its negation must fit the signed
/// 32-bit per-hand total.
pub const MAX_BID_AMOUNT: u32 = 2147483647;

/// The largest meld a hand can carry: meld plus the fifty trick points of
/// a hand must fit the signed 32-bit per-hand total.
pub const MAX_MELD_POINTS: u32 = 2147483597;

/// Bid increment validity: at least 50; 50 to 59 unconditionally; 60 to 99
/// in steps of five; 100 and up in steps of ten.
pub open spec fn spec_valid_bid(amount: u32) -> bool {
    amount >= 50 && (amount < 60 || (amount < 100 && amount % 5 == 0) || amount % 10 == 0)
}

/// Meld normalization: a claim below twenty is forfeited and recorded as
/// absent; twenty and above passes through unchanged.
pub open spec fn spec_normalize_points(points: u32) -> Option<u32> {
    if points < 20 {
        None
    } else {
        Some(points)
    }
}

/// Normalization of an already-optional meld; absent stays absent.
pub open spec fn spec_normalize_meld(meld: Option<u32>) -> Option<u32> {
    match meld {
        Some(m) => spec_normalize_points(m),
        None => None,
    }
}

/// Meld normalization maps every claim below twenty (zero included,
/// meaning no meld claimed) to absent, and every claim of twenty or more
/// to itself unchanged; applying it again to its own result changes
/// nothing.
pub proof fn lemma_normalize_points(points: u32)
    ensures
        points < 20 <==> spec_normalize_points(points) is None,
        points >= 20 ==> spec_normalize_points(points) == Some(points),
        spec_normalize_meld(spec_normalize_points(points)) == spec_normalize_points(points),
{
}

/// Meld normalization is idempotent: normalizing twice equals normalizing
/// once.
pub proof fn lemma_normalize_meld_idempotent(meld: Option<u32>)
    ensures
        spec_normalize_meld(spec_normalize_meld(meld)) == spec_normalize_meld(meld),
{
}

/// A completed hand stores a per-team total as absent when it is exactly
/// zero, and as the signed value otherwise.
pub open spec fn spec_normalize_total(total: i32) -> Option<i32> {
    if total == 0 {
        None
    } else {
        Some(total)
    }
}

/// The meld belonging to the given team, out of the `Us`/`Them` pair.
pub open spec fn spec_team_meld(team: Team, us_meld: Option<u32>, them_meld: Option<u32>) -> Option<
    u32,
> {
    match team {
        Team::Us => us_meld,
        Team::Them => them_meld,
    }
}

/// An absent meld counts as zero points.
pub open spec fn spec_meld_or_zero(meld: Option<u32>) -> int {
    match meld {
        Some(m) => m as int,
        None => 0,
    }
}

/// A normalized meld carried over into a stored per-team total: the meld's
/// value, or absent when the meld was forfeited.
pub open spec fn spec_meld_as_total(meld: Option<u32>) -> Option<i32> {
    match meld {
        Some(m) => Some(m as i32),
        None => None,
    }
}

/// Tricks the bidding team must take to save its contract: cover the bid
/// net of its meld, but never less than twenty.
pub open spec fn spec_required_tricks(bid_amount: u32, meld: Option<u32>) -> int {
    let net = bid_amount - spec_meld_or_zero(meld);
    if net > 20 {
        net
    } else {
        20
    }
}

/// A team's raw score from one hand: nothing below twenty trick points;
/// tricks alone when its meld was forfeited; meld plus tricks otherwise.
pub open spec fn spec_team_total(meld: int, tricks: int) -> int {
    if tricks < 20 {
        0
    } else if meld < 20 {
        tricks
    } else {
        meld + tricks
    }
}

/// The `Us` tricks after zero-inference: a literal zero on one side means
/// "infer it as fifty minus the other side".
pub open spec fn spec_infer_us(us: u32, them: u32) -> int {
    if us == 0 {
        50 - them
    } else {
        us as int
    }
}

/// The `Them` tricks after zero-inference.
pub open spec fn spec_infer_them(us: u32, them: u32) -> int {
    if them == 0 {
        50 - us
    } else {
        them as int
    }
}

/// A trick input pair is accepted when it is not the ambiguous `(0, 0)`
/// and the pair sums to exactly fifty after zero-inference.
pub open spec fn spec_tricks_ok(us: u32, them: u32) -> bool {
    &&& !(us == 0 && them == 0)
    &&& spec_infer_us(us, them) >= 0
    &&& spec_infer_them(us, them) >= 0
    &&& spec_infer_us(us, them) + spec_infer_them(us, them) == 50
}

/// Trick-sum invariant: an accepted trick input completes the hand with
/// recorded tricks that sum to exactly fifty, and the ambiguous `(0, 0)`
/// is never accepted.
pub proof fn lemma_recorded_tricks_sum_to_fifty(state: HandState, us: u32, them: u32)
    requires
        spec_tricks_ok(us, them),
        state is WaitingForTricks,
    ensures
        !spec_tricks_ok(0, 0),
        spec_state_after_tricks(
            state,
            spec_infer_us(us, them) as u32,
            spec_infer_them(us, them) as u32,
        ) matches HandState::Completed { us_tricks, them_tricks, .. }
            && (us_tricks matches Some(u) && them_tricks matches Some(t) && u + t == 50),
{
}

/// The state a hand moves to when meld is recorded in `WaitingForMeld` or
/// `NoMarriage`; from any other phase the operation is rejected.
pub open spec fn spec_state_after_meld(state: HandState, us: u32, them: u32) -> HandState {
    let us_meld = spec_normalize_points(us);
    let them_meld = spec_normalize_points(them);
    match state {
        HandState::WaitingForMeld { bidder, bid_amount, trump } => {
            let team = spec_team(bidder);
            if spec_team_meld(team, us_meld, them_meld) is None {
                HandState::Completed {
                    bidder,
                    bid_amount,
                    trump,
                    us_meld,
                    them_meld,
                    us_tricks: None,
                    them_tricks: None,
                    us_total: if team == Team::Us {
                        Some((-(bid_amount as int)) as i32)
                    } else {
                        spec_meld_as_total(us_meld)
                    },
                    them_total: if team == Team::Us {
                        spec_meld_as_total(them_meld)
                    } else {
                        Some((-(bid_amount as int)) as i32)
                    },
                }
            } else {
                HandState::WaitingForTricks { bidder, bid_amount, trump, us_meld, them_meld }
            }
        },
        HandState::NoMarriage { bidder, bid_amount } => {
            let team = spec_team(bidder);
            HandState::Completed {
                bidder,
                bid_amount,
                trump: Suit::NoMarriage,
                us_meld: if team == Team::Us {
                    None
                } else {
                    us_meld
                },
                them_meld: if team == Team::Them {
                    None
                } else {
                    them_meld
                },
                us_tricks: None,
                them_tricks: None,
                us_total: Some(
                    if team == Team::Us {
                        (-(bid_amount as int)) as i32
                    } else {
                        spec_meld_or_zero(us_meld) as i32
                    },
                ),
                them_total: Some(
                    if team == Team::Us {
                        spec_meld_or_zero(them_meld) as i32
                    } else {
                        (-(bid_amount as int)) as i32
                    },
                ),
            }
        },
        _ => state,
    }
}

/// The completed state a hand moves to when tricks `(final_us,
/// final_them)` are recorded in `WaitingForTricks`; from any other phase
/// the operation is rejected.
pub open spec fn spec_state_after_tricks(state: HandState, final_us: u32, final_them: u32) -> HandState {
    match state {
        HandState::WaitingForTricks { bidder, bid_amount, trump, us_meld, them_meld } => {
            let team = spec_team(bidder);
            let required = spec_required_tricks(bid_amount, spec_team_meld(team, us_meld, them_meld));
            let bidder_tricks: int = if team == Team::Us {
                final_us as int
            } else {
                final_them as int
            };
            let us_raw = spec_team_total(spec_meld_or_zero(us_meld), final_us as int);
            let them_raw = spec_team_total(spec_meld_or_zero(them_meld), final_them as int);
            let us_final: int = if bidder_tricks < required && team == Team::Us {
                -(bid_amount as int)
            } else {
                us_raw
            };
            let them_final: int = if bidder_tricks < required && team == Team::Them {
                -(bid_amount as int)
            } else {
                them_raw
            };
            HandState::Completed {
                bidder,
                bid_amount,
                trump,
                us_meld: spec_normalize_meld(us_meld),
                them_meld: spec_normalize_meld(them_meld),
                us_tricks: Some(final_us),
                them_tricks: Some(final_them),
                us_total: spec_normalize_total(us_final as i32),
                them_total: spec_normalize_total(them_final as i32),
            }
        },
        _ => state,
    }
}

/// Bounds on a phase's payload that every arithmetic step of the scoring
/// rules needs: a bid whose negation fits the signed per-hand total, and
/// melds that still fit it after the hand's fifty trick points.
pub open spec fn spec_state_bounded(state: HandState) -> bool {
    match state {
        HandState::WaitingForBid => true,
        HandState::WaitingForTrump { bid_amount, .. } => bid_amount <= MAX_BID_AMOUNT,
        HandState::NoMarriage { bid_amount, .. } => bid_amount <= MAX_BID_AMOUNT,
        HandState::WaitingForMeld { bid_amount, .. } => bid_amount <= MAX_BID_AMOUNT,
        HandState::WaitingForTricks { bid_amount, us_meld, them_meld, .. } => {
            &&& bid_amount <= MAX_BID_AMOUNT
            &&& (us_meld matches Some(m) ==> m <= MAX_MELD_POINTS)
            &&& (them_meld matches Some(m) ==> m <= MAX_MELD_POINTS)
        },
        HandState::Completed { us_meld, them_meld, .. } => {
            &&& (us_meld matches Some(m) ==> m <= MAX_MELD_POINTS)
            &&& (them_meld matches Some(m) ==> m <= MAX_MELD_POINTS)
        },
    }
}

/// The bidder a hand reports, derived from its phase.
pub open spec fn spec_state_bidder(state: HandState) -> Option<Player> {
    match state {
        HandState::WaitingForBid => None,
        HandState::WaitingForTrump { bidder, .. } => Some(bidder),
        HandState::NoMarriage { bidder, .. } => Some(bidder),
        HandState::WaitingForMeld { bidder, .. } => Some(bidder),
        HandState::WaitingForTricks { bidder, .. } => Some(bidder),
        HandState::Completed { bidder, .. } => Some(bidder),
    }
}

/// The bid a hand reports, derived from its phase: once a bid is placed it
/// never changes, so it is present in every later phase and absent only
/// before a bid.
pub open spec fn spec_state_bid(state: HandState) -> Option<u32> {
    match state {
        HandState::WaitingForBid => None,
        HandState::WaitingForTrump { bid_amount, .. } => Some(bid_amount),
        HandState::NoMarriage { bid_amount, .. } => Some(bid_amount),
        HandState::WaitingForMeld { bid_amount, .. } => Some(bid_amount),
        HandState::WaitingForTricks { bid_amount, .. } => Some(bid_amount),
        HandState::Completed { bid_amount, .. } => Some(bid_amount),
    }
}

/// The trump a hand reports: present once declared with a marriage.
pub open spec fn spec_state_trump(state: HandState) -> Option<Suit> {
    match state {
        HandState::WaitingForMeld { trump, .. } => Some(trump),
        HandState::WaitingForTricks { trump, .. } => Some(trump),
        HandState::Completed { trump, .. } => Some(trump),
        _ => None,
    }
}

/// The `Us` total of a completed hand, counting absent as zero; zero for a
/// hand still in play.
pub open spec fn spec_us_total(state: HandState) -> int {
    match state {
        HandState::Completed { us_total, .. } => spec_total_or_zero(us_total),
        _ => 0,
    }
}

/// The `Them` total of a completed hand, counting absent as zero; zero for
/// a hand still in play.
pub open spec fn spec_them_total(state: HandState) -> int {
    match state {
        HandState::Completed { them_total, .. } => spec_total_or_zero(them_total),
        _ => 0,
    }
}

/// An absent total counts as zero points.
pub open spec fn spec_total_or_zero(total: Option<i32>) -> int {
    match total {
        Some(t) => t as int,
        None => 0,
    }
}

/// One hand of the game: an identifier, the seat that dealt it, its phase,
/// and the bid bookkeeping set when a bid is placed.
#[derive(Debug, Clone, Copy, PartialEq, Eq)]
pub struct Hand {
    id: HandId,
    dealer: Player,
    state: HandState,
    bidder: Option<Player>,
    bid_amount: Option<u32>,
}

impl Hand {
    /// The hand's identifier.
    pub closed spec fn spec_id(self) -> HandId {
        self.id
    }

    /// The seat that dealt the hand.
    pub closed spec fn spec_dealer(self) -> Player {
        self.dealer
    }

    /// The hand's phase.
    pub closed spec fn spec_state(self) -> HandState {
        self.state
    }

    /// The bidder bookkeeping field, set when a bid is placed.
    pub closed spec fn spec_bidder(self) -> Option<Player> {
        self.bidder
    }

    /// The bid bookkeeping field, set when a bid is placed.
    pub closed spec fn spec_bid_amount(self) -> Option<u32> {
        self.bid_amount
    }

    /// Well-formedness: the phase payload and the bid bookkeeping stay
    /// within the bounds the scoring arithmetic needs. Constructors
    /// establish it and every transition preserves it.
    pub open spec fn wf(self) -> bool {
        &&& spec_state_bounded(self.spec_state())
        &&& (self.spec_bid_amount() matches Some(a) ==> a <= MAX_BID_AMOUNT)
    }

    /// The transition result keeps everything of `self` but the phase.
    pub open spec fn spec_steps_to(self, post: Hand, state: HandState) -> bool {
        &&& post.spec_id() == self.spec_id()
        &&& post.spec_dealer() == self.spec_dealer()
        &&& post.spec_bidder() == self.spec_bidder()
        &&& post.spec_bid_amount() == self.spec_bid_amount()
        &&& post.spec_state() == state
    }

    /// A hand that has just been dealt and waits for a bid.
    pub open spec fn spec_fresh(self, dealer: Player) -> bool {
        &&& self.spec_dealer() == dealer
        &&& self.spec_state() == HandState::WaitingForBid
        &&& self.spec_bidder() is None
        &&& self.spec_bid_amount() is None
    }

    /// A fresh hand dealt by `dealer`, waiting for a bid, with a newly
    /// drawn identifier.
    pub fn new(dealer: Player) -> (h: Hand)
        ensures
            h.spec_fresh(dealer),
            h.wf(),
    {
        Hand {
            id: HandId::new(),
            dealer,
            state: HandState::WaitingForBid,
            bidder: None,
            bid_amount: None,
        }
    }

    /// The hand's identifier.
    pub fn id(&self) -> (r: HandId)
        ensures
            r == self.spec_id(),
    {
        self.id
    }

    /// The seat that dealt this hand.
    pub fn dealer(&self) -> (r: Player)
        ensures
            r == self.spec_dealer(),
    {
        self.dealer
    }

    /// The hand's current phase.
    pub fn state(&self) -> (r: HandState)
        ensures
            r == self.spec_state(),
    {
        self.state
    }

    /// The same hand with its phase replaced: test scaffolding for placing
    /// a hand directly into a phase of interest.
    pub fn with_state(self, state: HandState) -> (h: Hand)
        requires
            spec_state_bounded(state),
        ensures
            self.spec_steps_to(h, state),
            self.wf() ==> h.wf(),
    {
        Hand { state, ..self }
    }

    /// The same hand with its phase replaced, leaving the receiver
    /// untouched: test scaffolding.
    pub fn set_state(&self, state: HandState) -> (h: Hand)
        requires
            spec_state_bounded(state),
        ensures
            self.spec_steps_to(h, state),
            self.wf() ==> h.wf(),
    {
        Hand { state, ..*self }
    }

    /// The bidder, derived from the phase: absent only before a bid.
    pub fn bidder(&self) -> (r: Option<Player>)
        ensures
            r == spec_state_bidder(self.spec_state()),
    {
        match self.state {
            HandState::WaitingForTrump { bidder, .. } => Some(bidder),
            HandState::NoMarriage { bidder, .. } => Some(bidder),
            HandState::WaitingForMeld { bidder, .. } => Some(bidder),
            HandState::WaitingForTricks { bidder, .. } => Some(bidder),
            HandState::Completed { bidder, .. } => Some(bidder),
            _ => None,
        }
    }

    /// The bid, derived from the phase: once set it never changes, so it
    /// is absent only before a bid.
    pub fn bid_amount(&self) -> (r: Option<u32>)
        ensures
            r == spec_state_bid(self.spec_state()),
    {
        match self.state {
            HandState::WaitingForTrump { bid_amount, .. } => Some(bid_amount),
            HandState::NoMarriage { bid_amount, .. } => Some(bid_amount),
            HandState::WaitingForMeld { bid_amount, .. } => Some(bid_amount),
            HandState::WaitingForTricks { bid_amount, .. } => Some(bid_amount),
            HandState::Completed { bid_amount, .. } => Some(bid_amount),
            _ => None,
        }
    }

    /// The declared trump, present from `WaitingForMeld` onward.
    pub fn trump(&self) -> (r: Option<Suit>)
        ensures
            r == spec_state_trump(self.spec_state()),
    {
        match self.state {
            HandState::WaitingForMeld { trump, .. } => Some(trump),
            HandState::WaitingForTricks { trump, .. } => Some(trump),
            HandState::Completed { trump, .. } => Some(trump),
            _ => None,
        }
    }

    /// The `Us` total this hand contributes: zero unless completed with a
    /// nonzero total.
    pub fn us_total(&self) -> (r: i32)
        ensures
            r as int == spec_us_total(self.spec_state()),
    {
        match self.state {
            HandState::Completed { us_total, .. } => us_total.unwrap_or(0),
            _ => 0,
        }
    }

    /// The `Them` total this hand contributes: zero unless completed with
    /// a nonzero total.
    pub fn them_total(&self) -> (r: i32)
        ensures
            r as int == spec_them_total(self.spec_state()),
    {
        match self.state {
            HandState::Completed { them_total, .. } => them_total.unwrap_or(0),
            _ => 0,
        }
    }

    /// The recorded `Us` meld, present from `WaitingForTricks` onward.
    pub fn us_meld(&self) -> (r: Option<u32>)
        ensures
            r == (match self.spec_state() {
                HandState::Completed { us_meld, .. } => us_meld,
                HandState::WaitingForTricks { us_meld, .. } => us_meld,
                _ => None,
            }),
    {
        match self.state {
            HandState::Completed { us_meld, .. } => us_meld,
            HandState::WaitingForTricks { us_meld, .. } => us_meld,
            _ => None,
        }
    }

    /// The recorded `Them` meld, present from `WaitingForTricks` onward.
    pub fn them_meld(&self) -> (r: Option<u32>)
        ensures
            r == (match self.spec_state() {
                HandState::Completed { them_meld, .. } => them_meld,
                HandState::WaitingForTricks { them_meld, .. } => them_meld,
                _ => None,
            }),
    {
        match self.state {
            HandState::Completed { them_meld, .. } => them_meld,
            HandState::WaitingForTricks { them_meld, .. } => them_meld,
            _ => None,
        }
    }

    /// The recorded `Us` tricks, present once completed through the tricks
    /// step.
    pub fn us_tricks(&self) -> (r: Option<u32>)
        ensures
            r == (match self.spec_state() {
                HandState::Completed { us_tricks, .. } => us_tricks,
                _ => None,
            }),
    {
        match self.state {
            HandState::Completed { us_tricks, .. } => us_tricks,
            _ => None,
        }
    }

    /// The recorded `Them` tricks, present once completed through the
    /// tricks step.
    pub fn them_tricks(&self) -> (r: Option<u32>)
        ensures
            r == (match self.spec_state() {
                HandState::Completed { them_tricks, .. } => them_tricks,
                _ => None,
            }),
    {
        match self.state {
            HandState::Completed { them_tricks, .. } => them_tricks,
            _ => None,
        }
    }

    /// Places a bid. Accepted exactly when the hand waits for a bid and
    /// the amount follows the increment rules; on success the hand moves
    /// to `WaitingForTrump` carrying bidder and amount.
    pub fn place_bid(&self, bidder: Player, bid_amount: u32) -> (r: Result<Hand, HandError>)
        requires
            self.wf(),
            bid_amount <= MAX_BID_AMOUNT,
        ensures
            r is Ok <==> self.spec_state() is WaitingForBid && spec_valid_bid(bid_amount),
            r matches Ok(h) ==> {
                &&& h.spec_id() == self.spec_id()
                &&& h.spec_dealer() == self.spec_dealer()
                &&& h.spec_bidder() == Some(bidder)
                &&& h.spec_bid_amount() == Some(bid_amount)
                &&& h.spec_state() == (HandState::WaitingForTrump { bidder, bid_amount })
                &&& h.wf()
            },
            !(self.spec_state() is WaitingForBid) ==> (r matches Err(e)
                && e matches HandError::InvalidStateTransition(m) && m@
                == "Hand is not waiting for bid"@),
            self.spec_state() is WaitingForBid && !spec_valid_bid(bid_amount) ==> (r matches Err(e)
                && e matches HandError::InvalidBid(m) && m@
                == "Invalid bid amount. Must follow increment rules"@),
    {
        match self.state {
            HandState::WaitingForBid => {
                if !Hand::validate_bid_increment(bid_amount) {
                    return Err(
                        HandError::InvalidBid(
                            "Invalid bid amount. Must follow increment rules".to_owned(),
                        ),
                    );
                }
                Ok(
                    Hand {
                        bidder: Some(bidder),
                        bid_amount: Some(bid_amount),
                        state: HandState::WaitingForTrump { bidder, bid_amount },
                        ..*self
                    },
                )
            },
            _ => Err(HandError::InvalidStateTransition("Hand is not waiting for bid".to_owned())),
        }
    }

    /// Declares trump. Accepted exactly when the hand waits for trump; a
    /// real suit moves it to `WaitingForMeld`, the no-marriage sentinel to
    /// `NoMarriage`.
    pub fn declare_trump(&self, trump: Suit) -> (r: Result<Hand, HandError>)
        requires
            self.wf(),
        ensures
            r is Ok <==> self.spec_state() is WaitingForTrump,
            (match self.spec_state() {
                HandState::WaitingForTrump { bidder, bid_amount } => r matches Ok(h) && {
                    &&& self.spec_steps_to(
                        h,
                        if trump == Suit::NoMarriage {
                            HandState::NoMarriage { bidder, bid_amount }
                        } else {
                            HandState::WaitingForMeld { bidder, bid_amount, trump }
                        },
                    )
                    &&& h.wf()
                },
                _ => r matches Err(e) && e matches HandError::InvalidStateTransition(m) && m@
                    == "Hand is not waiting for trump"@,
            }),
    {
        match self.state {
            HandState::WaitingForTrump { bidder, bid_amount } => {
                if trump != Suit::NoMarriage {
                    Ok(
                        Hand {
                            state: HandState::WaitingForMeld { bidder, bid_amount, trump },
                            ..*self
                        },
                    )
                } else {
                    Ok(Hand { state: HandState::NoMarriage { bidder, bid_amount }, ..*self })
                }
            },
            _ => Err(HandError::InvalidStateTransition("Hand is not waiting for trump".to_owned())),
        }
    }

    /// Records both teams' meld claims. Accepted exactly when the hand
    /// waits for meld or sits in `NoMarriage`. A bidding team without a
    /// stake (meld forfeited, or no marriage) completes the hand at once
    /// with the bid charged against it; the other team's total is then its
    /// normalized meld, stored absent on the forfeit path when that meld
    /// is also below twenty, and its meld value or zero on the no-marriage
    /// path. Otherwise the hand advances to `WaitingForTricks` carrying
    /// both normalized melds.
    pub fn record_meld(self, us: u32, them: u32) -> (r: Result<Hand, HandError>)
        requires
            self.wf(),
            us <= MAX_MELD_POINTS,
            them <= MAX_MELD_POINTS,
        ensures
            r is Ok <==> (self.spec_state() is WaitingForMeld || self.spec_state() is NoMarriage),
            r matches Ok(h) ==> {
                &&& self.spec_steps_to(h, spec_state_after_meld(self.spec_state(), us, them))
                &&& h.wf()
            },
            r matches Err(e) ==> (e matches HandError::InvalidStateTransition(m) && m@
                == "Hand is not waiting for meld"@),
    {
        let us_meld = Hand::validate_points(us);
        let them_meld = Hand::validate_points(them);

        match self.state {
            HandState::WaitingForMeld { bidder, bid_amount, trump } => {
                let bidding_team = bidder.team();
                let bidding_team_meld = Self::team_meld(bidding_team, us_meld, them_meld);

                if bidding_team_meld.is_none() {
                    let (us_total, them_total) = Self::failed_meld_scores(
                        bidding_team,
                        bid_amount,
                        us_meld,
                        them_meld,
                    );
                    return Ok(
                        Hand {
                            state: HandState::Completed {
                                bidder,
                                bid_amount,
                                trump,
                                us_meld,
                                them_meld,
                                us_tricks: None,
                                them_tricks: None,
                                us_total,
                                them_total,
                            },
                            ..self
                        },
                    );
                }
                Ok(
                    Hand {
                        state: HandState::WaitingForTricks {
                            bidder,
                            bid_amount,
                            trump,
                            us_meld,
                            them_meld,
                        },
                        ..self
                    },
                )
            },
            HandState::NoMarriage { bidder, bid_amount } => {
                let bidding_team = bidder.team();
                let (us_score, them_score) = Self::no_marriage_scores(
                    bidding_team,
                    bid_amount,
                    us_meld,
                    them_meld,
                );
                Ok(
                    Hand {
                        state: HandState::Completed {
                            bidder,
                            bid_amount,
                            trump: Suit::NoMarriage,
                            us_meld: if matches!(bidding_team, Team::Us) {
                                None
                            } else {
                                us_meld
                            },
                            them_meld: if matches!(bidding_team, Team::Them) {
                                None
                            } else {
                                them_meld
                            },
                            us_tricks: None,
                            them_tricks: None,
                            us_total: Some(us_score),
                            them_total: Some(them_score),
                        },
                        ..self
                    },
                )
            },
            _ => Err(HandError::InvalidStateTransition("Hand is not waiting for meld".to_owned())),
        }
    }

    /// Records the trick points of both teams and always completes the
    /// hand on success. A single zero side is inferred as fifty minus the
    /// other; `(0, 0)` is rejected as ambiguous; the pair must sum to
    /// exactly fifty. A bidding team below its required tricks scores the
    /// negative of its bid.
    pub fn record_tricks(self, us: u32, them: u32) -> (r: Result<Hand, HandError>)
        requires
            self.wf(),
        ensures
            r is Ok <==> spec_tricks_ok(us, them) && self.spec_state() is WaitingForTricks,
            !spec_tricks_ok(us, them) ==> r == Err::<Hand, HandError>(
                HandError::InvalidTricks(us, them),
            ),
            spec_tricks_ok(us, them) && !(self.spec_state() is WaitingForTricks) ==> (
            r matches Err(e) && e matches HandError::InvalidStateTransition(m) && m@
                == "Hand is not waiting for tricks"@),
            r matches Ok(h) ==> {
                &&& self.spec_steps_to(
                    h,
                    spec_state_after_tricks(
                        self.spec_state(),
                        spec_infer_us(us, them) as u32,
                        spec_infer_them(us, them) as u32,
                    ),
                )
                &&& h.wf()
            },
    {
        if us == 0 && them == 0 {
            return Err(HandError::InvalidTricks(us, them));
        }
        let final_us: u32 = if us == 0 {
            if them > 50 {
                return Err(HandError::InvalidTricks(us, them));
            }
            50 - them
        } else {
            us
        };
        let final_them: u32 = if them == 0 {
            if us > 50 {
                return Err(HandError::InvalidTricks(us, them));
            }
            50 - us
        } else {
            them
        };
        if !(final_us <= 50 && final_them <= 50 && final_us + final_them == 50) {
            return Err(HandError::InvalidTricks(us, them));
        }

        match self.state {
            HandState::WaitingForTricks { bidder, bid_amount, trump, us_meld, them_meld } => {
                let bidding_team = bidder.team();
                let required_tricks = Self::required_tricks(
                    bid_amount,
                    us_meld,
                    them_meld,
                    bidding_team,
                );
                let bidder_tricks = match bidding_team {
                    Team::Us => final_us,
                    Team::Them => final_them,
                };
                let us_raw = Self::calculate_team_total(us_meld.unwrap_or(0), final_us);
                let them_raw = Self::calculate_team_total(them_meld.unwrap_or(0), final_them);
                let (us_final, them_final) = Self::apply_bidding_penalty(
                    bidding_team,
                    us_raw,
                    them_raw,
                    bid_amount,
                    bidder_tricks,
                    required_tricks,
                );
                Ok(
                    Hand {
                        state: HandState::Completed {
                            bidder,
                            bid_amount,
                            trump,
                            us_meld: Self::normalize_meld(us_meld),
                            them_meld: Self::normalize_meld(them_meld),
                            us_tricks: Some(final_us),
                            them_tricks: Some(final_them),
                            us_total: Self::normalize_total(us_final),
                            them_total: Self::normalize_total(them_final),
                        },
                        ..self
                    },
                )
            },
            _ => Err(
                HandError::InvalidStateTransition("Hand is not waiting for tricks".to_owned()),
            ),
        }
    }

    /// The tricks the bidding team must take to save its contract, derived
    /// from the bid bookkeeping and the melds known so far; absent before
    /// a bid exists.
    pub fn tricks_to_save(&self) -> (r: Option<u32>)
        requires
            self.wf(),
        ensures
            r == spec_tricks_to_save(*self),
    {
        if self.bid_amount().is_none() {
            return None;
        }
        let them_meld = self.state.them_meld().unwrap_or(0);
        let us_meld = self.state.us_meld().unwrap_or(0);
        let bid_amount = match self.bid_amount {
            Some(a) => a,
            None => 0,
        };
        match self.bidder {
            Some(b) => Some(
                Hand::required_tricks(bid_amount, Some(us_meld), Some(them_meld), b.team()),
            ),
            None => None,
        }
    }

    /// The meld belonging to the given team out of the recorded pair.
    fn team_meld(team: Team, us_meld: Option<u32>, them_meld: Option<u32>) -> (r: Option<u32>)
        ensures
            r == spec_team_meld(team, us_meld, them_meld),
    {
        match team {
            Team::Us => us_meld,
            Team::Them => them_meld,
        }
    }

    /// The stored per-team totals of a hand whose bidding team forfeited
    /// its meld at the meld step: the bid charged against it, the other
    /// team keeping its meld points, or absent when its meld was also
    /// forfeited.
    fn failed_meld_scores(team: Team, bid_amount: u32, us_meld: Option<u32>, them_meld: Option<u32>)
        -> (r: (Option<i32>, Option<i32>))
        requires
            bid_amount <= MAX_BID_AMOUNT,
            us_meld matches Some(m) ==> m <= MAX_MELD_POINTS,
            them_meld matches Some(m) ==> m <= MAX_MELD_POINTS,
        ensures
            r.0 == (if team == Team::Us {
                Some((-(bid_amount as int)) as i32)
            } else {
                spec_meld_as_total(us_meld)
            }),
            r.1 == (if team == Team::Us {
                spec_meld_as_total(them_meld)
            } else {
                Some((-(bid_amount as int)) as i32)
            }),
    {
        match team {
            Team::Us => (
                Some(-(bid_amount as i32)),
                match them_meld {
                    Some(m) => Some(m as i32),
                    None => None,
                },
            ),
            Team::Them => (
                match us_meld {
                    Some(m) => Some(m as i32),
                    None => None,
                },
                Some(-(bid_amount as i32)),
            ),
        }
    }

    /// The per-team totals of a hand whose bidder could not declare trump
    /// for want of a marriage: the bid charged against the bidding team,
    /// the other team's meld value or zero if absent.
    fn no_marriage_scores(team: Team, bid_amount: u32, us_meld: Option<u32>, them_meld: Option<u32>)
        -> (r: (i32, i32))
        requires
            bid_amount <= MAX_BID_AMOUNT,
            us_meld matches Some(m) ==> m <= MAX_MELD_POINTS,
            them_meld matches Some(m) ==> m <= MAX_MELD_POINTS,
        ensures
            r.0 as int == (if team == Team::Us {
                -(bid_amount as int)
            } else {
                spec_meld_or_zero(us_meld)
            }),
            r.1 as int == (if team == Team::Us {
                spec_meld_or_zero(them_meld)
            } else {
                -(bid_amount as int)
            }),
    {
        match team {
            Team::Us => (-(bid_amount as i32), them_meld.unwrap_or(0) as i32),
            Team::Them => (us_meld.unwrap_or(0) as i32, -(bid_amount as i32)),
        }
    }

    /// Tricks the bidding team needs: cover the bid net of its meld, but
    /// never less than twenty.
    fn required_tricks(
        bid_amount: u32,
        us_meld: Option<u32>,
        them_meld: Option<u32>,
        bidding_team: Team,
    ) -> (r: u32)
        requires
            bid_amount <= MAX_BID_AMOUNT,
            spec_team_meld(bidding_team, us_meld, them_meld) matches Some(m) ==> m
                <= MAX_MELD_POINTS,
        ensures
            r as int == spec_required_tricks(
                bid_amount,
                spec_team_meld(bidding_team, us_meld, them_meld),
            ),
    {
        let meld: u32 = match bidding_team {
            Team::Us => us_meld.unwrap_or(0),
            Team::Them => them_meld.unwrap_or(0),
        };
        let net: i64 = bid_amount as i64 - meld as i64;
        if net > 20 {
            net as u32
        } else {
            20
        }
    }

    /// Meld normalization of an optional claim.
    fn normalize_meld(meld: Option<u32>) -> (r: Option<u32>)
        ensures
            r == spec_normalize_meld(meld),
    {
        match meld {
            Some(m) => if m < 20 {
                None
            } else {
                Some(m)
            },
            None => None,
        }
    }

    /// A zero total is stored as absent.
    fn normalize_total(total: i32) -> (r: Option<i32>)
        ensures
            r == spec_normalize_total(total),
    {
        if total == 0 {
            None
        } else {
            Some(total)
        }
    }

    /// A team's raw score from meld and tricks.
    fn calculate_team_total(meld: u32, tricks: u32) -> (r: i32)
        requires
            meld <= MAX_MELD_POINTS,
            tricks <= 50,
        ensures
            r as int == spec_team_total(meld as int, tricks as int),
    {
        if tricks < 20 {
            0
        } else if meld < 20 {
            tricks as i32
        } else {
            (meld + tricks) as i32
        }
    }

    /// Overrides the bidding team's score with the negative of its bid
    /// when it fell short of its required tricks.
    fn apply_bidding_penalty(
        bidding_team: Team,
        us_total: i32,
        them_total: i32,
        bid_amount: u32,
        bidding_tricks: u32,
        required_tricks: u32,
    ) -> (r: (i32, i32))
        requires
            bid_amount <= MAX_BID_AMOUNT,
        ensures
            r.0 as int == (if bidding_tricks < required_tricks && bidding_team == Team::Us {
                -(bid_amount as int)
            } else {
                us_total as int
            }),
            r.1 as int == (if bidding_tricks < required_tricks && bidding_team == Team::Them {
                -(bid_amount as int)
            } else {
                them_total as int
            }),
    {
        if bidding_tricks < required_tricks {
            match bidding_team {
                Team::Us => (-(bid_amount as i32), them_total),
                Team::Them => (us_total, -(bid_amount as i32)),
            }
        } else {
            (us_total, them_total)
        }
    }

    /// Meld normalization: claims below twenty are forfeited.
    fn validate_points(meld: u32) -> (r: Option<u32>)
        ensures
            r == spec_normalize_points(meld),
    {
        if meld < 20 {
            None
        } else {
            Some(meld)
        }
    }

    /// Meld normalization, exposed for inspection: claims below twenty are
    /// forfeited and reported as absent.
    pub fn get_validate_points(meld: u32) -> (r: Option<u32>)
        ensures
            r == spec_normalize_points(meld),
    {
        Hand::validate_points(meld)
    }

    /// Bid increment validity: at least 50; anything up to 59; then steps
    /// of five up to 99; then steps of ten.
    pub fn validate_bid_increment(amount: u32) -> (r: bool)
        ensures
            r == spec_valid_bid(amount),
    {
        if amount < 50 {
            false
        } else if amount < 60 {
            true
        } else if amount < 100 {
            amount % 5 == 0
        } else {
            amount % 10 == 0
        }
    }
}

/// The tricks the bidding team must still take, as `tricks_to_save`
/// derives it: from the bid bookkeeping and the melds the phase reports.
pub open spec fn spec_tricks_to_save(h: Hand) -> Option<u32> {
    if spec_state_bid(h.spec_state()) is None {
        None
    } else {
        match h.spec_bidder() {
            Some(b) => {
                let us_meld = match h.spec_state() {
                    HandState::WaitingForTricks { us_meld, .. } => spec_meld_or_zero(us_meld),
                    HandState::Completed { us_meld, .. } => spec_meld_or_zero(us_meld),
                    _ => 0,
                };
                let them_meld = match h.spec_state() {
                    HandState::WaitingForTricks { them_meld, .. } => spec_meld_or_zero(them_meld),
                    HandState::Completed { them_meld, .. } => spec_meld_or_zero(them_meld),
                    _ => 0,
                };
                let bid = match h.spec_bid_amount() {
                    Some(a) => a as int,
                    None => 0,
                };
                let meld = if spec_team(b) == Team::Us {
                    us_meld
                } else {
                    them_meld
                };
                Some((if bid - meld > 20 { bid - meld } else { 20 }) as u32)
            },
            None => None,
        }
    }
}

/// Round trip of the two scoring steps. On a hand waiting for meld whose
/// two melds are both at least twenty (so neither team forfeits) and whose
/// bidding team then makes its contract, recording meld and then tricks
/// completes the hand with each team's total equal to its meld plus its
/// tricks; the total is stored exactly when it is nonzero, and a team
/// below twenty trick points scores nothing.
pub proof fn lemma_meld_then_tricks_round_trip(
    state: HandState,
    us_meld: u32,
    them_meld: u32,
    final_us: u32,
    final_them: u32,
)
    requires
        state is WaitingForMeld,
        state matches HandState::WaitingForMeld { bid_amount, .. } ==> bid_amount
            <= MAX_BID_AMOUNT,
        20 <= us_meld <= MAX_MELD_POINTS,
        20 <= them_meld <= MAX_MELD_POINTS,
        final_us + final_them == 50,
        state matches HandState::WaitingForMeld { bidder, bid_amount, .. } ==> (if spec_team(bidder)
            == Team::Us {
            final_us as int
        } else {
            final_them as int
        }) >= spec_required_tricks(
            bid_amount,
            Some(
                if spec_team(bidder) == Team::Us {
                    us_meld
                } else {
                    them_meld
                },
            ),
        ),
    ensures
        ({
            let s2 = spec_state_after_meld(state, us_meld, them_meld);
            let s3 = spec_state_after_tricks(s2, final_us, final_them);
            &&& s2 is WaitingForTricks
            &&& (s3 matches HandState::Completed {
                us_meld: m1,
                them_meld: m2,
                us_tricks,
                them_tricks,
                us_total,
                them_total,
                ..
            } && {
                &&& m1 == Some(us_meld)
                &&& m2 == Some(them_meld)
                &&& us_tricks == Some(final_us)
                &&& them_tricks == Some(final_them)
                &&& (final_us >= 20 ==> us_total == Some((us_meld + final_us) as i32))
                &&& (final_us < 20 ==> us_total is None)
                &&& (final_them >= 20 ==> them_total == Some((them_meld + final_them) as i32))
                &&& (final_them < 20 ==> them_total is None)
            })
        }),
{
}

} // verus!
