//! The trailing-stop state machine: what the bot does with each round of
//! prices and with the outcome of each buy.
//!
//! First leg: every token's ask is trailed (its lowest and highest ask
//! since the trail started); a token under half a dollar whose ask has
//! risen by the trailing stop above its lowest, without making a new high,
//! is bought; of several, the cheapest. Second leg: the other token of a
//! two-outcome market, or one of the two others of a three-outcome market,
//! is trailed and bought the same way, in as many shares as the first leg.

use vstd::prelude::*;
use crate::price::{price_in_range, PRICE_ONE};
use crate::sizing::{first_buy_units, first_buy_units_of, Shares, MAX_BASE_SHARES};

verus! {

/// Half a dollar: first legs only buy tokens whose ask is below it.
pub const HALF_PRICE: i128 = 500_000;

/// The trailing stop used when the configuration sets none: three cents.
pub const DEFAULT_TRAILING_STOP: i128 = 30_000;

/// The largest magnitude of a trailing stop: two to the 120th.
pub const MAX_TRAILING_STOP: i128 = 0x100_0000_0000_0000_0000_0000_0000_0000;

/// A market with two outcomes or one with three.
#[derive(Clone, Copy, Debug, PartialEq, Eq)]
pub enum MarketKind {
    Binary,
    ThreeWay,
}

/// The settings of a trading session.
#[derive(Clone, Copy, Debug)]
pub struct TrailingConfig {
    /// How far above its trailed low an ask must rise to trigger a buy.
    pub trailing_stop: i128,
    /// The shares a first leg buys at least, in millionths of a share.
    pub base_shares: u64,
    /// Whether to start over after both legs are bought.
    pub continuous: bool,
    pub kind: MarketKind,
}

impl TrailingConfig {
    pub open spec fn wf(self) -> bool {
        &&& self.base_shares <= MAX_BASE_SHARES
        &&& -MAX_TRAILING_STOP <= self.trailing_stop <= MAX_TRAILING_STOP
    }

    /// The settings of a session from the configured values: the trailing
    /// stop defaults to three cents; the base shares default to what the
    /// fixed trade amount buys at half a dollar a share (twice the amount).
    /// Amounts are in millionths of a dollar, shares in millionths of a
    /// share. None when the base shares exceed what can be rounded up to a
    /// hundredth of a share in 64 bits, or the stop exceeds two to the 120th
    /// in magnitude.
    pub fn new(
        trailing_stop: Option<i128>,
        trailing_shares: Option<u64>,
        fixed_trade_amount: u64,
        continuous: bool,
        kind: MarketKind,
    ) -> (r: Option<TrailingConfig>)
        ensures
            ({
                let shares: int = match trailing_shares {
                    Some(v) => v as int,
                    None => 2 * fixed_trade_amount,
                };
                let stop: i128 = match trailing_stop {
                    Some(v) => v,
                    None => DEFAULT_TRAILING_STOP,
                };
                &&& r is Some <==> (shares <= MAX_BASE_SHARES && -MAX_TRAILING_STOP <= stop
                    <= MAX_TRAILING_STOP)
                &&& r matches Some(c) ==> {
                    &&& c.wf()
                    &&& c.base_shares == shares
                    &&& c.trailing_stop == stop
                    &&& c.continuous == continuous
                    &&& c.kind == kind
                }
            }),
    {
        let stop = match trailing_stop {
            Some(v) => v,
            None => DEFAULT_TRAILING_STOP,
        };
        let shares = match trailing_shares {
            Some(v) => v,
            None => {
                if fixed_trade_amount > MAX_BASE_SHARES / 2 {
                    return None;
                }
                2 * fixed_trade_amount
            },
        };
        if shares > MAX_BASE_SHARES || stop < -MAX_TRAILING_STOP || stop > MAX_TRAILING_STOP {
            return None;
        }
        Some(TrailingConfig { trailing_stop: stop, base_shares: shares, continuous, kind })
    }
}

/// The ask of each token in one round of prices, in millionths of a
/// dollar; `ask2` is zero in a two-outcome market.
#[derive(Clone, Copy, Debug, PartialEq, Eq)]
pub struct Asks {
    pub ask0: i128,
    pub ask1: i128,
    pub ask2: i128,
}

impl Asks {
    /// Every ask lies within the prices a decimal can give.
    pub open spec fn wf(self) -> bool {
        price_in_range(self.ask0) && price_in_range(self.ask1) && price_in_range(self.ask2)
    }
}

/// Where the bot stands in a round of two legs. Lows and highs are the
/// trailed asks of the tokens, in millionths of a dollar; shares are in
/// millionths of a share.
#[derive(Clone, Copy, Debug, PartialEq, Eq)]
pub enum TrailingState {
    /// Two outcomes: trailing both tokens for a first leg.
    WaitingFirst { low0: i128, high0: i128, low1: i128, high1: i128 },
    /// Three outcomes: trailing all tokens for a first leg.
    WaitingFirst3 { low0: i128, high0: i128, low1: i128, high1: i128, low2: i128, high2: i128 },
    /// Two outcomes: a first buy is in flight; the revert values are the
    /// trail to start again from if it fails.
    FirstBuyPending {
        first_is_token0: bool,
        first_price: i128,
        shares: Shares,
        opp_lowest: i128,
        revert_low0: i128,
        revert_high0: i128,
        revert_low1: i128,
        revert_high1: i128,
    },
    /// Three outcomes: a first buy is in flight.
    FirstBuyPending3 {
        first_index: usize,
        first_price: i128,
        shares: Shares,
        revert_low0: i128,
        revert_high0: i128,
        revert_low1: i128,
        revert_high1: i128,
        revert_low2: i128,
        revert_high2: i128,
        /// The asks, in the round of the buy, of the two other tokens,
        /// `(first_index + 1) % 3` and `(first_index + 2) % 3`: where their
        /// trails start once the buy succeeds.
        rem1_ask: i128,
        rem2_ask: i128,
    },
    /// Two outcomes: the first leg is bought; trailing the other token.
    FirstBought { first_is_token0: bool, first_price: i128, shares: Shares, opposite_lowest: i128 },
    /// Three outcomes: the first leg is bought; trailing the two others,
    /// `(first_index + 1) % 3` and `(first_index + 2) % 3`.
    FirstBought3 {
        first_index: usize,
        first_price: i128,
        shares: Shares,
        rem1_low: i128,
        rem1_high: i128,
        rem2_low: i128,
        rem2_high: i128,
    },
    /// Both legs are bought.
    Done,
}

/// What the bot does after a round of prices.
#[derive(Clone, Copy, Debug, PartialEq, Eq)]
pub enum Decision {
    /// Nothing to buy now.
    Wait,
    /// Buy the first leg: `units` shares of token `index` at `price`. The
    /// amount invested is the shares times the price.
    BuyFirst { index: usize, price: i128, units: Shares },
    /// Buy the second leg: `shares` shares of token `index` at `price`.
    BuySecond { index: usize, price: i128, shares: Shares },
}

/// The side an order for a token is placed as: the first token is "up",
/// the others "down".
#[derive(Clone, Copy, Debug, PartialEq, Eq)]
pub enum Side {
    Up,
    Down,
}

/// The side of token `index`.
pub fn side_of(index: usize) -> (r: Side)
    ensures
        r == (if index == 0 { Side::Up } else { Side::Down }),
{
    if index == 0 {
        Side::Up
    } else {
        Side::Down
    }
}

pub open spec fn min_price(a: i128, b: i128) -> i128 {
    if a <= b { a } else { b }
}

pub open spec fn max_price(a: i128, b: i128) -> i128 {
    if a >= b { a } else { b }
}

/// One round of trailing a token's ask: the new low and high, and whether
/// the ask triggers a buy (it has risen by `stop` above the low, without
/// making a new high). An ask above the old high restarts the low there.
pub open spec fn trail_step(low: i128, high: i128, ask: i128, stop: i128) -> (i128, i128, bool) {
    let lowered = min_price(low, ask);
    let new_low = if ask > high { ask } else { lowered };
    (new_low, max_price(high, ask), ask >= lowered + stop && ask <= high)
}

/// The ask of token `i`.
pub open spec fn ask_at(q: Asks, i: int) -> i128 {
    if i == 0 { q.ask0 } else if i == 1 { q.ask1 } else { q.ask2 }
}

/// Of two triggered underdogs, the cheaper one (the first on a tie).
pub open spec fn pick_first2(d0: bool, d1: bool, a0: i128, a1: i128) -> Option<(usize, i128)> {
    if d0 && (!d1 || a0 <= a1) {
        Some((0usize, a0))
    } else if d1 {
        Some((1usize, a1))
    } else {
        None
    }
}

/// Of three triggered underdogs, the cheapest one (the first on a tie).
pub open spec fn pick_first3(d0: bool, d1: bool, d2: bool, a0: i128, a1: i128, a2: i128) -> Option<
    (usize, i128),
> {
    if d0 && (!d1 || a0 <= a1) && (!d2 || a0 <= a2) {
        Some((0usize, a0))
    } else if d1 && (!d2 || a1 <= a2) {
        Some((1usize, a1))
    } else if d2 {
        Some((2usize, a2))
    } else {
        None
    }
}

/// The state a session starts in: every low at one dollar, every high at
/// zero.
pub open spec fn initial_state(kind: MarketKind) -> TrailingState {
    match kind {
        MarketKind::Binary => TrailingState::WaitingFirst {
            low0: PRICE_ONE,
            high0: 0,
            low1: PRICE_ONE,
            high1: 0,
        },
        MarketKind::ThreeWay => TrailingState::WaitingFirst3 {
            low0: PRICE_ONE,
            high0: 0,
            low1: PRICE_ONE,
            high1: 0,
            low2: PRICE_ONE,
            high2: 0,
        },
    }
}

impl TrailingState {
    /// Token indices of three-outcome states are below three, and every
    /// price lies within the prices a decimal can give.
    pub open spec fn wf(self) -> bool {
        match self {
            TrailingState::WaitingFirst { low0, high0, low1, high1 } => price_in_range(low0)
                && price_in_range(high0) && price_in_range(low1) && price_in_range(high1),
            TrailingState::WaitingFirst3 { low0, high0, low1, high1, low2, high2 } => price_in_range(
                low0,
            ) && price_in_range(high0) && price_in_range(low1) && price_in_range(high1)
                && price_in_range(low2) && price_in_range(high2),
            TrailingState::FirstBuyPending {
                first_price,
                opp_lowest,
                revert_low0,
                revert_high0,
                revert_low1,
                revert_high1,
                ..
            } => price_in_range(first_price) && price_in_range(opp_lowest) && price_in_range(
                revert_low0,
            ) && price_in_range(revert_high0) && price_in_range(revert_low1) && price_in_range(
                revert_high1,
            ),
            TrailingState::FirstBuyPending3 {
                first_index,
                first_price,
                revert_low0,
                revert_high0,
                revert_low1,
                revert_high1,
                revert_low2,
                revert_high2,
                rem1_ask,
                rem2_ask,
                ..
            } => first_index < 3 && price_in_range(first_price) && price_in_range(revert_low0)
                && price_in_range(revert_high0) && price_in_range(revert_low1) && price_in_range(
                revert_high1,
            ) && price_in_range(revert_low2) && price_in_range(revert_high2) && price_in_range(
                rem1_ask,
            ) && price_in_range(rem2_ask),
            TrailingState::FirstBought { first_price, opposite_lowest, .. } => price_in_range(
                first_price,
            ) && price_in_range(opposite_lowest),
            TrailingState::FirstBought3 {
                first_index,
                first_price,
                rem1_low,
                rem1_high,
                rem2_low,
                rem2_high,
                ..
            } => first_index < 3 && price_in_range(first_price) && price_in_range(rem1_low)
                && price_in_range(rem1_high) && price_in_range(rem2_low) && price_in_range(rem2_high),
            TrailingState::Done => true,
        }
    }

    /// Whether a first buy is in flight.
    pub open spec fn is_pending(self) -> bool {
        self is FirstBuyPending || self is FirstBuyPending3
    }
}

/// The state and the decision after a round of prices `q` in state `s`.
pub open spec fn next_on_prices(s: TrailingState, cfg: TrailingConfig, q: Asks) -> (
    TrailingState,
    Decision,
) {
    let stop = cfg.trailing_stop;
    match s {
        TrailingState::WaitingFirst { low0, high0, low1, high1 } => {
            let (l0, h0, b0) = trail_step(low0, high0, q.ask0, stop);
            let (l1, h1, b1) = trail_step(low1, high1, q.ask1, stop);
            let trailed = TrailingState::WaitingFirst { low0: l0, high0: h0, low1: l1, high1: h1 };
            let pick = pick_first2(
                b0 && q.ask0 < HALF_PRICE,
                b1 && q.ask1 < HALF_PRICE,
                q.ask0,
                q.ask1,
            );
            match pick {
                Some((index, price)) => {
                    let units = first_buy_units_of(cfg.base_shares, price);
                    (
                        TrailingState::FirstBuyPending {
                            first_is_token0: index == 0,
                            first_price: price,
                            shares: units,
                            opp_lowest: if index == 0 { q.ask1 } else { q.ask0 },
                            revert_low0: min_price(q.ask0, PRICE_ONE),
                            revert_high0: max_price(q.ask0, 0),
                            revert_low1: min_price(q.ask1, PRICE_ONE),
                            revert_high1: max_price(q.ask1, 0),
                        },
                        Decision::BuyFirst { index, price, units },
                    )
                },
                None => (trailed, Decision::Wait),
            }
        },
        TrailingState::WaitingFirst3 { low0, high0, low1, high1, low2, high2 } => {
            let (l0, h0, b0) = trail_step(low0, high0, q.ask0, stop);
            let (l1, h1, b1) = trail_step(low1, high1, q.ask1, stop);
            let (l2, h2, b2) = trail_step(low2, high2, q.ask2, stop);
            let trailed = TrailingState::WaitingFirst3 {
                low0: l0,
                high0: h0,
                low1: l1,
                high1: h1,
                low2: l2,
                high2: h2,
            };
            let pick = pick_first3(
                b0 && q.ask0 < HALF_PRICE,
                b1 && q.ask1 < HALF_PRICE,
                b2 && q.ask2 < HALF_PRICE,
                q.ask0,
                q.ask1,
                q.ask2,
            );
            match pick {
                Some((index, price)) => {
                    let units = first_buy_units_of(cfg.base_shares, price);
                    (
                        TrailingState::FirstBuyPending3 {
                            first_index: index,
                            first_price: price,
                            shares: units,
                            revert_low0: min_price(q.ask0, PRICE_ONE),
                            revert_high0: max_price(q.ask0, 0),
                            revert_low1: min_price(q.ask1, PRICE_ONE),
                            revert_high1: max_price(q.ask1, 0),
                            revert_low2: min_price(q.ask2, PRICE_ONE),
                            revert_high2: max_price(q.ask2, 0),
                            rem1_ask: ask_at(q, (index + 1) % 3),
                            rem2_ask: ask_at(q, (index + 2) % 3),
                        },
                        Decision::BuyFirst { index, price, units },
                    )
                },
                None => (trailed, Decision::Wait),
            }
        },
        TrailingState::FirstBuyPending { .. } => (s, Decision::Wait),
        TrailingState::FirstBuyPending3 { .. } => (s, Decision::Wait),
        TrailingState::FirstBought { first_is_token0, first_price, shares, opposite_lowest } => {
            let index: usize = if first_is_token0 { 1 } else { 0 };
            let opp_ask = ask_at(q, index as int);
            let lowest = min_price(opposite_lowest, opp_ask);
            let trailed = TrailingState::FirstBought {
                first_is_token0,
                first_price,
                shares,
                opposite_lowest: lowest,
            };
            if opp_ask >= lowest + stop {
                (
                    trailed,
                    Decision::BuySecond { index, price: opp_ask, shares },
                )
            } else {
                (trailed, Decision::Wait)
            }
        },
        TrailingState::FirstBought3 {
            first_index,
            first_price,
            shares,
            rem1_low,
            rem1_high,
            rem2_low,
            rem2_high,
        } => {
            let r1 = ((first_index + 1) % 3) as usize;
            let r2 = ((first_index + 2) % 3) as usize;
            let a1 = ask_at(q, r1 as int);
            let a2 = ask_at(q, r2 as int);
            let (l1, h1, b1) = trail_step(rem1_low, rem1_high, a1, stop);
            let (l2, h2, b2) = trail_step(rem2_low, rem2_high, a2, stop);
            let trailed = TrailingState::FirstBought3 {
                first_index,
                first_price,
                shares,
                rem1_low: l1,
                rem1_high: h1,
                rem2_low: l2,
                rem2_high: h2,
            };
            if !b1 && !b2 {
                (trailed, Decision::Wait)
            } else if b1 && (!b2 || a1 <= a2) {
                (
                    trailed,
                    Decision::BuySecond { index: r1, price: a1, shares },
                )
            } else {
                (
                    trailed,
                    Decision::BuySecond { index: r2, price: a2, shares },
                )
            }
        },
        TrailingState::Done => if !cfg.continuous {
            (s, Decision::Wait)
        } else {
            match cfg.kind {
                MarketKind::Binary => (
                    TrailingState::WaitingFirst {
                        low0: q.ask0,
                        high0: q.ask0,
                        low1: q.ask1,
                        high1: q.ask1,
                    },
                    Decision::Wait,
                ),
                MarketKind::ThreeWay => (
                    TrailingState::WaitingFirst3 {
                        low0: q.ask0,
                        high0: q.ask0,
                        low1: q.ask1,
                        high1: q.ask1,
                        low2: q.ask2,
                        high2: q.ask2,
                    },
                    Decision::Wait,
                ),
            }
        },
    }
}

/// The state after the outcome of a first buy: the bought leg on success,
/// a trail started again from the prices of the buy on failure.
pub open spec fn next_on_first_result(s: TrailingState, succeeded: bool) -> TrailingState {
    match s {
        TrailingState::FirstBuyPending {
            first_is_token0,
            first_price,
            shares,
            opp_lowest,
            revert_low0,
            revert_high0,
            revert_low1,
            revert_high1,
        } => if succeeded {
            TrailingState::FirstBought {
                first_is_token0,
                first_price,
                shares,
                opposite_lowest: opp_lowest,
            }
        } else {
            TrailingState::WaitingFirst {
                low0: revert_low0,
                high0: revert_high0,
                low1: revert_low1,
                high1: revert_high1,
            }
        },
        TrailingState::FirstBuyPending3 {
            first_index,
            first_price,
            shares,
            revert_low0,
            revert_high0,
            revert_low1,
            revert_high1,
            revert_low2,
            revert_high2,
            rem1_ask,
            rem2_ask,
        } => if succeeded {
            TrailingState::FirstBought3 {
                first_index,
                first_price,
                shares,
                rem1_low: rem1_ask,
                rem1_high: rem1_ask,
                rem2_low: rem2_ask,
                rem2_high: rem2_ask,
            }
        } else {
            TrailingState::WaitingFirst3 {
                low0: revert_low0,
                high0: revert_high0,
                low1: revert_low1,
                high1: revert_high1,
                low2: revert_low2,
                high2: revert_high2,
            }
        },
        _ => s,
    }
}

/// The state after the outcome of a second buy: on success a fresh trail
/// when the session is continuous, else done; on failure unchanged.
pub open spec fn next_on_second_result(s: TrailingState, succeeded: bool, continuous: bool) -> TrailingState {
    match s {
        TrailingState::FirstBought { .. } => if !succeeded {
            s
        } else if continuous {
            initial_state(MarketKind::Binary)
        } else {
            TrailingState::Done
        },
        TrailingState::FirstBought3 { .. } => if !succeeded {
            s
        } else if continuous {
            initial_state(MarketKind::ThreeWay)
        } else {
            TrailingState::Done
        },
        _ => s,
    }
}

fn min_of(a: i128, b: i128) -> (r: i128)
    ensures
        r == min_price(a, b),
{
    if a <= b { a } else { b }
}

fn max_of(a: i128, b: i128) -> (r: i128)
    ensures
        r == max_price(a, b),
{
    if a >= b { a } else { b }
}

/// One round of trailing a token's ask; see [`trail_step`].
fn trail(low: i128, high: i128, ask: i128, stop: i128) -> (r: (i128, i128, bool))
    requires
        price_in_range(low),
        price_in_range(ask),
    ensures
        r == trail_step(low, high, ask, stop),
{
    let lowered = min_of(low, ask);
    let new_low = if ask > high { ask } else { lowered };
    let triggered = ask <= high && ask - lowered >= stop;
    (new_low, max_of(high, ask), triggered)
}

fn pick2(d0: bool, d1: bool, a0: i128, a1: i128) -> (r: Option<(usize, i128)>)
    ensures
        r == pick_first2(d0, d1, a0, a1),
{
    if d0 && (!d1 || a0 <= a1) {
        Some((0, a0))
    } else if d1 {
        Some((1, a1))
    } else {
        None
    }
}

fn pick3(d0: bool, d1: bool, d2: bool, a0: i128, a1: i128, a2: i128) -> (r: Option<(usize, i128)>)
    ensures
        r == pick_first3(d0, d1, d2, a0, a1, a2),
{
    if d0 && (!d1 || a0 <= a1) && (!d2 || a0 <= a2) {
        Some((0, a0))
    } else if d1 && (!d2 || a1 <= a2) {
        Some((1, a1))
    } else if d2 {
        Some((2, a2))
    } else {
        None
    }
}

fn ask_of_index(q: &Asks, i: usize) -> (r: i128)
    ensures
        r == ask_at(*q, i as int),
{
    if i == 0 {
        q.ask0
    } else if i == 1 {
        q.ask1
    } else {
        q.ask2
    }
}

impl TrailingState {
    /// The state a session starts in.
    pub fn initial(kind: MarketKind) -> (r: TrailingState)
        ensures
            r == initial_state(kind),
            r.wf(),
    {
        match kind {
            MarketKind::Binary => TrailingState::WaitingFirst {
                low0: PRICE_ONE,
                high0: 0,
                low1: PRICE_ONE,
                high1: 0,
            },
            MarketKind::ThreeWay => TrailingState::WaitingFirst3 {
                low0: PRICE_ONE,
                high0: 0,
                low1: PRICE_ONE,
                high1: 0,
                low2: PRICE_ONE,
                high2: 0,
            },
        }
    }

    /// Takes in a round of prices: updates the trails and says what to buy,
    /// if anything. A first leg triggered at a price of zero is bought with
    /// no bound on its shares, as no number of shares costs a dollar there. A first buy puts the state in flight until its outcome
    /// is reported with [`TrailingState::on_first_buy_result`]; a second
    /// buy leaves the state as it is until its outcome is reported with
    /// [`TrailingState::on_second_buy_result`].
    pub fn on_prices(&mut self, cfg: &TrailingConfig, q: &Asks) -> (d: Decision)
        requires
            old(self).wf(),
            cfg.wf(),
            q.wf(),
        ensures
            (*final(self), d) == next_on_prices(*old(self), *cfg, *q),
            final(self).wf(),
    {
        let stop = cfg.trailing_stop;
        match *self {
            TrailingState::WaitingFirst { low0, high0, low1, high1 } => {
                let (l0, h0, b0) = trail(low0, high0, q.ask0, stop);
                let (l1, h1, b1) = trail(low1, high1, q.ask1, stop);
                *self = TrailingState::WaitingFirst { low0: l0, high0: h0, low1: l1, high1: h1 };
                let pick = pick2(
                    b0 && q.ask0 < HALF_PRICE,
                    b1 && q.ask1 < HALF_PRICE,
                    q.ask0,
                    q.ask1,
                );
                match pick {
                    Some((index, price)) => {
                        let units = first_buy_units(cfg.base_shares, price);
                        *self = TrailingState::FirstBuyPending {
                            first_is_token0: index == 0,
                            first_price: price,
                            shares: units,
                            opp_lowest: if index == 0 { q.ask1 } else { q.ask0 },
                            revert_low0: min_of(q.ask0, PRICE_ONE),
                            revert_high0: max_of(q.ask0, 0),
                            revert_low1: min_of(q.ask1, PRICE_ONE),
                            revert_high1: max_of(q.ask1, 0),
                        };
                        Decision::BuyFirst { index, price, units }
                    },
                    None => Decision::Wait,
                }
            },
            TrailingState::WaitingFirst3 { low0, high0, low1, high1, low2, high2 } => {
                let (l0, h0, b0) = trail(low0, high0, q.ask0, stop);
                let (l1, h1, b1) = trail(low1, high1, q.ask1, stop);
                let (l2, h2, b2) = trail(low2, high2, q.ask2, stop);
                *self = TrailingState::WaitingFirst3 {
                    low0: l0,
                    high0: h0,
                    low1: l1,
                    high1: h1,
                    low2: l2,
                    high2: h2,
                };
                let pick = pick3(
                    b0 && q.ask0 < HALF_PRICE,
                    b1 && q.ask1 < HALF_PRICE,
                    b2 && q.ask2 < HALF_PRICE,
                    q.ask0,
                    q.ask1,
                    q.ask2,
                );
                match pick {
                    Some((index, price)) => {
                        let units = first_buy_units(cfg.base_shares, price);
                        *self = TrailingState::FirstBuyPending3 {
                            first_index: index,
                            first_price: price,
                            shares: units,
                            revert_low0: min_of(q.ask0, PRICE_ONE),
                            revert_high0: max_of(q.ask0, 0),
                            revert_low1: min_of(q.ask1, PRICE_ONE),
                            revert_high1: max_of(q.ask1, 0),
                            revert_low2: min_of(q.ask2, PRICE_ONE),
                            revert_high2: max_of(q.ask2, 0),
                            rem1_ask: ask_of_index(q, (index + 1) % 3),
                            rem2_ask: ask_of_index(q, (index + 2) % 3),
                        };
                        Decision::BuyFirst { index, price, units }
                    },
                    None => Decision::Wait,
                }
            },
            TrailingState::FirstBuyPending { .. } => Decision::Wait,
            TrailingState::FirstBuyPending3 { .. } => Decision::Wait,
            TrailingState::FirstBought { first_is_token0, first_price, shares, opposite_lowest } => {
                let index: usize = if first_is_token0 { 1 } else { 0 };
                let opp_ask = ask_of_index(q, index);
                let lowest = min_of(opposite_lowest, opp_ask);
                *self = TrailingState::FirstBought {
                    first_is_token0,
                    first_price,
                    shares,
                    opposite_lowest: lowest,
                };
                if opp_ask - lowest >= stop {
                    Decision::BuySecond { index, price: opp_ask, shares }
                } else {
                    Decision::Wait
                }
            },
            TrailingState::FirstBought3 {
                first_index,
                first_price,
                shares,
                rem1_low,
                rem1_high,
                rem2_low,
                rem2_high,
            } => {
                let r1 = (first_index + 1) % 3;
                let r2 = (first_index + 2) % 3;
                let a1 = ask_of_index(q, r1);
                let a2 = ask_of_index(q, r2);
                let (l1, h1, b1) = trail(rem1_low, rem1_high, a1, stop);
                let (l2, h2, b2) = trail(rem2_low, rem2_high, a2, stop);
                *self = TrailingState::FirstBought3 {
                    first_index,
                    first_price,
                    shares,
                    rem1_low: l1,
                    rem1_high: h1,
                    rem2_low: l2,
                    rem2_high: h2,
                };
                if !b1 && !b2 {
                    Decision::Wait
                } else if b1 && (!b2 || a1 <= a2) {
                    Decision::BuySecond { index: r1, price: a1, shares }
                } else {
                    Decision::BuySecond { index: r2, price: a2, shares }
                }
            },
            TrailingState::Done => {
                if cfg.continuous {
                    *self = match cfg.kind {
                        MarketKind::Binary => TrailingState::WaitingFirst {
                            low0: q.ask0,
                            high0: q.ask0,
                            low1: q.ask1,
                            high1: q.ask1,
                        },
                        MarketKind::ThreeWay => TrailingState::WaitingFirst3 {
                            low0: q.ask0,
                            high0: q.ask0,
                            low1: q.ask1,
                            high1: q.ask1,
                            low2: q.ask2,
                            high2: q.ask2,
                        },
                    };
                }
                Decision::Wait
            },
        }
    }

    /// Takes in the outcome of the first buy in flight.
    pub fn on_first_buy_result(&mut self, succeeded: bool)
        requires
            old(self).wf(),
        ensures
            *final(self) == next_on_first_result(*old(self), succeeded),
            final(self).wf(),
    {
        match *self {
            TrailingState::FirstBuyPending {
                first_is_token0,
                first_price,
                shares,
                opp_lowest,
                revert_low0,
                revert_high0,
                revert_low1,
                revert_high1,
            } => {
                if succeeded {
                    *self = TrailingState::FirstBought {
                        first_is_token0,
                        first_price,
                        shares,
                        opposite_lowest: opp_lowest,
                    };
                } else {
                    *self = TrailingState::WaitingFirst {
                        low0: revert_low0,
                        high0: revert_high0,
                        low1: revert_low1,
                        high1: revert_high1,
                    };
                }
            },
            TrailingState::FirstBuyPending3 {
                first_index,
                first_price,
                shares,
                revert_low0,
                revert_high0,
                revert_low1,
                revert_high1,
                revert_low2,
                revert_high2,
                rem1_ask,
                rem2_ask,
            } => {
                if succeeded {
                    *self = TrailingState::FirstBought3 {
                        first_index,
                        first_price,
                        shares,
                        rem1_low: rem1_ask,
                        rem1_high: rem1_ask,
                        rem2_low: rem2_ask,
                        rem2_high: rem2_ask,
                    };
                } else {
                    *self = TrailingState::WaitingFirst3 {
                        low0: revert_low0,
                        high0: revert_high0,
                        low1: revert_low1,
                        high1: revert_high1,
                        low2: revert_low2,
                        high2: revert_high2,
                    };
                }
            },
            _ => {},
        }
    }

    /// Takes in the outcome of a second buy.
    pub fn on_second_buy_result(&mut self, succeeded: bool, cfg: &TrailingConfig)
        requires
            old(self).wf(),
        ensures
            *final(self) == next_on_second_result(*old(self), succeeded, cfg.continuous),
            final(self).wf(),
    {
        match *self {
            TrailingState::FirstBought { .. } => {
                if succeeded {
                    *self = if cfg.continuous {
                        TrailingState::initial(MarketKind::Binary)
                    } else {
                        TrailingState::Done
                    };
                }
            },
            TrailingState::FirstBought3 { .. } => {
                if succeeded {
                    *self = if cfg.continuous {
                        TrailingState::initial(MarketKind::ThreeWay)
                    } else {
                        TrailingState::Done
                    };
                }
            },
            _ => {},
        }
    }
}

} // verus!
