//! Time-keeping of a session: time left, and when to ask whether the
//! market has closed.

use vstd::prelude::*;

verus! {

/// The time left that is assumed when the market's end is unknown.
pub const UNKNOWN_END_REMAINING: u64 = 999_999;

/// The time left that orders are placed with once the end has passed.
pub const PAST_END_REMAINING: u64 = 60;

/// How many rounds pass between two checks of whether the market closed.
pub const CLOSED_CHECK_INTERVAL: u64 = 60;

/// The seconds from `now` until the market's end, zero once it is past;
/// a large constant when the end is unknown.
pub fn time_remaining(end_ts: Option<u64>, now: u64) -> (r: u64)
    ensures
        r == (match end_ts {
            Some(e) => if e >= now { (e - now) as u64 } else { 0 },
            None => UNKNOWN_END_REMAINING,
        }),
{
    match end_ts {
        Some(e) => if e >= now { e - now } else { 0 },
        None => UNKNOWN_END_REMAINING,
    }
}

/// The time left that orders are placed with: a minute once the end has
/// passed (the market may still be open), else the time left.
pub fn effective_time_remaining(time_remaining: u64) -> (r: u64)
    ensures
        r == (if time_remaining == 0 { PAST_END_REMAINING } else { time_remaining }),
        r > 0,
{
    if time_remaining == 0 {
        PAST_END_REMAINING
    } else {
        time_remaining
    }
}

/// The period timestamp given with orders: an hour before the market's
/// end (zero when unknown or too early).
pub fn period_timestamp(end_ts: Option<u64>) -> (r: u64)
    ensures
        r == (match end_ts {
            Some(e) => if e >= 3600 { (e - 3600) as u64 } else { 0 },
            None => 0,
        }),
{
    let e = match end_ts {
        Some(e) => e,
        None => 0,
    };
    if e >= 3600 { e - 3600 } else { 0 }
}

/// Counts rounds to decide when to ask whether the market closed.
pub struct ClosedCheckCounter {
    rounds: u64,
}

impl ClosedCheckCounter {
    #[verifier::type_invariant]
    spec fn inv(self) -> bool {
        self.rounds < CLOSED_CHECK_INTERVAL
    }

    /// The rounds since the last check.
    pub closed spec fn rounds(self) -> nat {
        self.rounds as nat
    }

    pub fn new() -> (r: ClosedCheckCounter)
        ensures
            r.rounds() == 0,
    {
        ClosedCheckCounter { rounds: 0 }
    }

    /// Counts a round and says whether to check now: once the end has
    /// passed, or when the interval has run out; checking starts the count
    /// again.
    pub fn tick(&mut self, time_remaining: u64) -> (check: bool)
        ensures
            check == (time_remaining == 0 || old(self).rounds() + 1 >= CLOSED_CHECK_INTERVAL),
            final(self).rounds() == (if check { 0 } else { old(self).rounds() + 1 }),
            final(self).rounds() < CLOSED_CHECK_INTERVAL,
    {
        proof { use_type_invariant(&*self); }
        let next = self.rounds + 1;
        let check = time_remaining == 0 || next >= CLOSED_CHECK_INTERVAL;
        if check {
            self.rounds = 0;
        } else {
            self.rounds = next;
        }
        check
    }
}

/// What a check of the market's status leads to.
#[derive(Clone, Copy, Debug, PartialEq, Eq)]
pub enum StatusOutcome {
    /// The market closed: stop.
    Exit,
    /// The end has passed but the market is still open: go on trading.
    PastEndStillOpen,
    /// The market is open: go on.
    Open,
    /// The status could not be read: go on.
    Unknown,
}

/// What to do after a check of the market's status; `closed` is none when
/// the status could not be read.
pub fn on_market_status(closed: Option<bool>, time_remaining: u64) -> (r: StatusOutcome)
    ensures
        r == (match closed {
            Some(true) => StatusOutcome::Exit,
            Some(false) => if time_remaining == 0 {
                StatusOutcome::PastEndStillOpen
            } else {
                StatusOutcome::Open
            },
            None => StatusOutcome::Unknown,
        }),
{
    match closed {
        Some(true) => StatusOutcome::Exit,
        Some(false) => if time_remaining == 0 {
            StatusOutcome::PastEndStillOpen
        } else {
            StatusOutcome::Open
        },
        None => StatusOutcome::Unknown,
    }
}

} // verus!
