//! Properties of the trailing state machine over several calls.

use vstd::prelude::*;
use crate::price::PRICE_ONE;
use crate::sizing::{first_buy_units_of, is_first_buy_units, Shares};
use crate::trailing::{
    ask_at, initial_state, max_price, min_price, next_on_first_result, next_on_prices, next_on_second_result,
    trail_step, Asks, Decision, MarketKind, TrailingConfig, TrailingState, HALF_PRICE,
};

verus! {

/// The number of tokens a state for a first leg trails.
pub open spec fn token_count(s: TrailingState) -> int {
    match s {
        TrailingState::WaitingFirst3 { .. } => 3,
        _ => 2,
    }
}

/// The trailed low of token `i` in a state for a first leg.
pub open spec fn waiting_low(s: TrailingState, i: int) -> i128 {
    match s {
        TrailingState::WaitingFirst { low0, low1, .. } => if i == 0 { low0 } else { low1 },
        TrailingState::WaitingFirst3 { low0, low1, low2, .. } => if i == 0 {
            low0
        } else if i == 1 {
            low1
        } else {
            low2
        },
        _ => 0,
    }
}

/// The trailed high of token `i` in a state for a first leg.
pub open spec fn waiting_high(s: TrailingState, i: int) -> i128 {
    match s {
        TrailingState::WaitingFirst { high0, high1, .. } => if i == 0 { high0 } else { high1 },
        TrailingState::WaitingFirst3 { high0, high1, high2, .. } => if i == 0 {
            high0
        } else if i == 1 {
            high1
        } else {
            high2
        },
        _ => 0,
    }
}

/// Whether token `i` qualifies for a first leg in this round: its ask
/// triggers the trailing stop and is under half a dollar.
pub open spec fn qualifies_first(s: TrailingState, cfg: TrailingConfig, q: Asks, i: int) -> bool {
    &&& trail_step(waiting_low(s, i), waiting_high(s, i), ask_at(q, i), cfg.trailing_stop).2
    &&& ask_at(q, i) < HALF_PRICE
}

pub open spec fn is_waiting(s: TrailingState) -> bool {
    s is WaitingFirst || s is WaitingFirst3
}

/// The token held after a first leg, and its share count.
pub open spec fn first_leg_of(s: TrailingState) -> Option<(int, Shares)> {
    match s {
        TrailingState::FirstBought { first_is_token0, shares, .. } => Some(
            (if first_is_token0 { 0int } else { 1int }, shares),
        ),
        TrailingState::FirstBought3 { first_index, shares, .. } => Some((first_index as int, shares)),
        _ => None,
    }
}

/// The token index of a three-outcome second leg is below three.
pub open spec fn leg_index_ok(s: TrailingState) -> bool {
    match s {
        TrailingState::FirstBought3 { first_index, .. } => first_index < 3,
        _ => true,
    }
}

/// A first leg is bought exactly when some token qualifies; the token
/// bought qualifies and is the cheapest that does; it is bought in the
/// shares a first buy takes at its price (at a positive price, the least
/// whole hundredth of shares, not below the base share count, that costs at
/// least one dollar); and the state waits for the outcome of the buy.
pub proof fn lemma_first_leg_buys_cheapest_triggered_underdog(
    s: TrailingState,
    cfg: TrailingConfig,
    q: Asks,
)
    requires
        is_waiting(s),
        cfg.wf(),
    ensures
        ({
            let (s2, d) = next_on_prices(s, cfg, q);
            &&& d matches Decision::BuyFirst { index, price, units } ==> {
                &&& 0 <= index < token_count(s)
                &&& price == ask_at(q, index as int)
                &&& price < HALF_PRICE
                &&& qualifies_first(s, cfg, q, index as int)
                &&& forall|j: int|
                    0 <= j < token_count(s) && qualifies_first(s, cfg, q, j) ==> price <= ask_at(q, j)
                &&& forall|j: int|
                    0 <= j < index && qualifies_first(s, cfg, q, j) ==> price < ask_at(q, j)
                &&& units == first_buy_units_of(cfg.base_shares, price)
                &&& price > 0 ==> (units matches Shares::Count(u) && is_first_buy_units(
                    u as int,
                    cfg.base_shares,
                    price as int,
                ))
                &&& s2.is_pending()
            }
            &&& d is Wait <==> forall|j: int|
                0 <= j < token_count(s) ==> !qualifies_first(s, cfg, q, j)
            &&& !(d is BuySecond)
        }),
{
    let (s2, d) = next_on_prices(s, cfg, q);
    if let Decision::BuyFirst { index, price, units } = d {
        if price > 0 {
            crate::sizing::lemma_first_buy_units_holds(cfg.base_shares, price as int);
        }
    }
    if d is Wait {
        assert forall|j: int| 0 <= j < token_count(s) implies !qualifies_first(s, cfg, q, j) by {}
    } else {
        if !qualifies_first(s, cfg, q, 0) && !qualifies_first(s, cfg, q, 1) {
            assert(qualifies_first(s, cfg, q, 2));
        }
    }
}

/// A failed first buy starts the trail again from the asks of the round
/// that triggered it: each low at the ask (one dollar at most) and each
/// high at the ask (zero at least).
pub proof fn lemma_failed_first_buy_restarts_trail(s: TrailingState, cfg: TrailingConfig, q: Asks)
    requires
        is_waiting(s),
        cfg.wf(),
        next_on_prices(s, cfg, q).1 is BuyFirst,
    ensures
        ({
            let s3 = next_on_first_result(next_on_prices(s, cfg, q).0, false);
            &&& is_waiting(s3)
            &&& token_count(s3) == token_count(s)
            &&& forall|i: int|
                0 <= i < token_count(s) ==> waiting_low(s3, i) == min_price(ask_at(q, i), PRICE_ONE)
                    && waiting_high(s3, i) == max_price(ask_at(q, i), 0)
        }),
{
}

/// After a first buy and its outcome, a two-outcome market is trailing both
/// tokens again (on failure) or holds the bought first leg (on success),
/// and a three-outcome market likewise; the buy is never left in flight,
/// never changes the market's kind and never ends the round.
pub proof fn lemma_first_buy_outcome(s: TrailingState, cfg: TrailingConfig, q: Asks, succeeded: bool)
    requires
        is_waiting(s),
        cfg.wf(),
        next_on_prices(s, cfg, q).1 is BuyFirst,
    ensures
        ({
            let s2 = next_on_first_result(next_on_prices(s, cfg, q).0, succeeded);
            &&& s is WaitingFirst ==> if succeeded {
                s2 is FirstBought
            } else {
                s2 is WaitingFirst
            }
            &&& s is WaitingFirst3 ==> if succeeded {
                s2 is FirstBought3
            } else {
                s2 is WaitingFirst3
            }
            &&& succeeded ==> first_leg_of(s2) == Some(
                (
                    next_on_prices(s, cfg, q).1->BuyFirst_index as int,
                    next_on_prices(s, cfg, q).1->units,
                ),
            )
        }),
{
}

/// While the second leg is trailed, the first leg (its token and its
/// shares) stays as it is; a second buy is of a token other than the first
/// one (of the opposite token in a two-outcome market), in as many shares
/// as the first leg; and a failed second buy changes nothing.
pub proof fn lemma_second_leg_keeps_first_leg(s: TrailingState, cfg: TrailingConfig, q: Asks)
    requires
        first_leg_of(s) is Some,
        leg_index_ok(s),
    ensures
        ({
            let (s2, d) = next_on_prices(s, cfg, q);
            let (first, shares) = first_leg_of(s)->0;
            &&& first_leg_of(s2) == first_leg_of(s)
            &&& leg_index_ok(s2)
            &&& s2 is FirstBought <==> s is FirstBought
            &&& d matches Decision::BuySecond { index, price, shares: n } ==> {
                &&& index != first
                &&& (s is FirstBought ==> index == 1 - first)
                &&& 0 <= index < 3
                &&& price == ask_at(q, index as int)
                &&& n == shares
            }
            &&& !(d is BuyFirst)
            &&& next_on_second_result(s, false, cfg.continuous) == s
        }),
{
}

/// The state after rounds of prices `qs`, each buying nothing or ending
/// in a failed second buy (which changes nothing).
pub open spec fn after_rounds(s: TrailingState, cfg: TrailingConfig, qs: Seq<Asks>) -> TrailingState
    decreases qs.len(),
{
    if qs.len() == 0 {
        s
    } else {
        after_rounds(next_on_prices(s, cfg, qs[0]).0, cfg, qs.drop_first())
    }
}

/// While the second leg is trailed, any number of rounds keeps the first
/// leg as it is.
pub proof fn lemma_first_leg_kept_over_rounds(s: TrailingState, cfg: TrailingConfig, qs: Seq<Asks>)
    requires
        first_leg_of(s) is Some,
        leg_index_ok(s),
    ensures
        first_leg_of(after_rounds(s, cfg, qs)) == first_leg_of(s),
        leg_index_ok(after_rounds(s, cfg, qs)),
    decreases qs.len(),
{
    if qs.len() > 0 {
        lemma_second_leg_keeps_first_leg(s, cfg, qs[0]);
        let s1 = next_on_prices(s, cfg, qs[0]).0;
        lemma_first_leg_kept_over_rounds(s1, cfg, qs.drop_first());
    }
}

/// A successful first buy holds the token and the shares that the buy
/// decision named; after any rounds of prices that follow (with failed
/// second buys among them), a second buy is of another token, in the same
/// shares.
pub proof fn lemma_second_leg_matches_first(
    s: TrailingState,
    cfg: TrailingConfig,
    q1: Asks,
    qs: Seq<Asks>,
    q2: Asks,
)
    requires
        is_waiting(s),
        cfg.wf(),
        next_on_prices(s, cfg, q1).1 is BuyFirst,
    ensures
        ({
            let (s1, d1) = next_on_prices(s, cfg, q1);
            let s2 = next_on_first_result(s1, true);
            let s3 = after_rounds(s2, cfg, qs);
            let (s4, d2) = next_on_prices(s3, cfg, q2);
            &&& d1 matches Decision::BuyFirst { index: first, units, .. } ==> {
                &&& first_leg_of(s2) == Some((first as int, units))
                &&& first_leg_of(s4) == first_leg_of(s2)
                &&& d2 matches Decision::BuySecond { index, shares, .. } ==> index != first
                    && shares == units
            }
        }),
{
    let (s1, d1) = next_on_prices(s, cfg, q1);
    let s2 = next_on_first_result(s1, true);
    lemma_first_leg_kept_over_rounds(s2, cfg, qs);
    lemma_second_leg_keeps_first_leg(after_rounds(s2, cfg, qs), cfg, q2);
}

/// While a first buy is in flight, rounds of prices change nothing and buy
/// nothing.
pub proof fn lemma_pending_ignores_prices(s: TrailingState, cfg: TrailingConfig, q: Asks)
    requires
        s.is_pending(),
    ensures
        next_on_prices(s, cfg, q) == (s, Decision::Wait),
{
}

/// Once per market: without the continuous option, after both legs the
/// bot stays done and buys nothing more.
pub proof fn lemma_done_is_final_once_per_market(
    cfg: TrailingConfig,
    q: Asks,
    succeeded: bool,
)
    requires
        !cfg.continuous,
    ensures
        next_on_prices(TrailingState::Done, cfg, q) == (TrailingState::Done, Decision::Wait),
        next_on_first_result(TrailingState::Done, succeeded) == TrailingState::Done,
        next_on_second_result(TrailingState::Done, succeeded, false) == TrailingState::Done,
{
}

/// A successful second buy ends the round: a continuous session starts a
/// fresh trail for a market of the same kind, any other is done.
pub proof fn lemma_second_buy_ends_round(s: TrailingState, continuous: bool)
    requires
        first_leg_of(s) is Some,
    ensures
        next_on_second_result(s, true, continuous) == if !continuous {
            TrailingState::Done
        } else if s is FirstBought {
            initial_state(MarketKind::Binary)
        } else {
            initial_state(MarketKind::ThreeWay)
        },
{
}

/// A round of prices that buys nothing keeps each trail consistent: the
/// high never drops and covers the ask, the low never exceeds the ask nor
/// the high, and the low only rises when the ask makes a new high.
pub proof fn lemma_trail_follows_asks(s: TrailingState, cfg: TrailingConfig, q: Asks)
    requires
        is_waiting(s),
        cfg.wf(),
        next_on_prices(s, cfg, q).1 is Wait,
    ensures
        ({
            let s2 = next_on_prices(s, cfg, q).0;
            &&& is_waiting(s2)
            &&& token_count(s2) == token_count(s)
            &&& forall|i: int|
                0 <= i < token_count(s) ==> {
                    &&& waiting_high(s2, i) >= waiting_high(s, i)
                    &&& waiting_high(s2, i) >= ask_at(q, i)
                    &&& waiting_low(s2, i) <= ask_at(q, i)
                    &&& waiting_low(s2, i) <= waiting_high(s2, i)
                    &&& (waiting_low(s2, i) > waiting_low(s, i) ==> ask_at(q, i) > waiting_high(
                        s,
                        i,
                    ))
                }
        }),
{
}

/// Whether remaining token `i` of a three-outcome second leg triggers in
/// round `q`, from its trail `(low, high)`.
pub open spec fn remaining_triggers(low: i128, high: i128, q: Asks, i: int, stop: i128) -> bool {
    let a = ask_at(q, i);
    a >= min_price(low, a) + stop && a <= high
}

/// A three-outcome second leg waits exactly when neither remaining token
/// triggers; otherwise it buys a remaining token that triggers, at its ask,
/// in the first leg's shares, and that ask is no greater than the ask of
/// the other remaining token if that one triggers too.
pub proof fn lemma_three_way_second_leg_buys_cheaper_trigger(
    s: TrailingState,
    cfg: TrailingConfig,
    q: Asks,
)
    requires
        s is FirstBought3,
        leg_index_ok(s),
    ensures
        ({
            let d = next_on_prices(s, cfg, q).1;
            let fi = s->FirstBought3_first_index as int;
            let r1 = (fi + 1) % 3;
            let r2 = (fi + 2) % 3;
            let t1 = remaining_triggers(s->rem1_low, s->rem1_high, q, r1, cfg.trailing_stop);
            let t2 = remaining_triggers(s->rem2_low, s->rem2_high, q, r2, cfg.trailing_stop);
            &&& d is Wait <==> !t1 && !t2
            &&& !(d is BuyFirst)
            &&& d matches Decision::BuySecond { index, price, shares } ==> {
                &&& (index == r1 && t1) || (index == r2 && t2)
                &&& price == ask_at(q, index as int)
                &&& shares == s->FirstBought3_shares
                &&& (t1 ==> price <= ask_at(q, r1))
                &&& (t2 ==> price <= ask_at(q, r2))
                &&& (t1 && (!t2 || ask_at(q, r1) <= ask_at(q, r2)) ==> index == r1)
            }
        }),
{
}

/// A two-outcome second leg trails the lowest ask of the token opposite the
/// first leg; it buys that token, at its ask, in the first leg's shares,
/// exactly when the ask is at least the trailed lowest (taken down to the
/// ask) plus the stop.
pub proof fn lemma_two_way_second_leg_buys_on_bounce(s: TrailingState, cfg: TrailingConfig, q: Asks)
    requires
        s is FirstBought,
    ensures
        ({
            let (s2, d) = next_on_prices(s, cfg, q);
            let opp: int = if s->FirstBought_first_is_token0 { 1 } else { 0 };
            let a = ask_at(q, opp);
            let lowest = if s->opposite_lowest <= a { s->opposite_lowest } else { a };
            &&& s2 matches TrailingState::FirstBought { opposite_lowest, .. } && opposite_lowest
                == lowest
            &&& (d is BuySecond <==> a >= lowest + cfg.trailing_stop)
            &&& (d is Wait <==> a < lowest + cfg.trailing_stop)
            &&& d matches Decision::BuySecond { index, price, shares } ==> index == opp && price
                == a && shares == s->FirstBought_shares
        }),
{
}

/// A first buy records where the second leg's trail starts: in a
/// two-outcome market the opposite token's lowest is that token's ask in
/// the round of the buy, both while the buy is in flight and once it
/// succeeds; in a three-outcome market the two other tokens' lows and
/// highs start at their asks in that round.
pub proof fn lemma_first_buy_starts_second_leg_at_buy_round_asks(
    s: TrailingState,
    cfg: TrailingConfig,
    q: Asks,
)
    requires
        is_waiting(s),
        cfg.wf(),
        next_on_prices(s, cfg, q).1 is BuyFirst,
    ensures
        ({
            let (s1, d) = next_on_prices(s, cfg, q);
            let i = d->BuyFirst_index as int;
            let s2 = next_on_first_result(s1, true);
            &&& s is WaitingFirst ==> {
                &&& s1 matches TrailingState::FirstBuyPending { first_is_token0, opp_lowest, .. }
                    && first_is_token0 == (i == 0) && opp_lowest == ask_at(q, 1 - i)
                &&& s2 matches TrailingState::FirstBought { first_is_token0, opposite_lowest, .. }
                    && first_is_token0 == (i == 0) && opposite_lowest == ask_at(q, 1 - i)
            }
            &&& s is WaitingFirst3 ==> {
                &&& s2 matches TrailingState::FirstBought3 {
                    first_index,
                    rem1_low,
                    rem1_high,
                    rem2_low,
                    rem2_high,
                    ..
                } && first_index == i && rem1_low == ask_at(q, (i + 1) % 3) && rem1_high == ask_at(
                    q,
                    (i + 1) % 3,
                ) && rem2_low == ask_at(q, (i + 2) % 3) && rem2_high == ask_at(q, (i + 2) % 3)
            }
        }),
{
}

} // verus!
