//! How many shares a first leg buys.

use vstd::prelude::*;
use crate::price::PRICE_ONE;

verus! {

/// The step in which share counts are bought: a hundredth of a share, in
/// millionths of a share.
pub const SHARE_STEP: u64 = 10_000;

/// The least that a first buy may cost: one dollar, in millionths.
pub const MIN_FIRST_BUY_COST: u64 = 1_000_000;

/// The largest base share count whose rounding up to a whole step still
/// fits in 64 bits.
pub const MAX_BASE_SHARES: u64 = 18_446_744_073_709_550_000;

/// A number of shares to buy, in millionths of a share: a count, or no
/// bound at all (what a buy at a price of zero asks for, since no number
/// of shares reaches the minimum cost there).
#[derive(Clone, Copy, Debug, PartialEq, Eq)]
pub enum Shares {
    Count(u64),
    Unbounded,
}

/// `base_shares` rounded up to a whole share step.
pub open spec fn step_ceil(base_shares: u64) -> int {
    SHARE_STEP * ((base_shares + SHARE_STEP - 1) / (SHARE_STEP as int))
}

/// The number of shares of a first buy at a positive `price`: the least
/// multiple of the share step that is at least `base_shares` and whose
/// cost (shares times price) is at least the minimum first buy.
pub open spec fn is_first_buy_units(units: int, base_shares: u64, price: int) -> bool {
    &&& units % (SHARE_STEP as int) == 0
    &&& units >= base_shares
    &&& units * price >= MIN_FIRST_BUY_COST * PRICE_ONE
    &&& (units - SHARE_STEP < base_shares
        || (units - SHARE_STEP) * price < MIN_FIRST_BUY_COST * PRICE_ONE)
}

/// The units of a first buy at a positive price, in closed form: the
/// larger of the steps the minimum cost needs and the steps the base
/// shares need.
pub open spec fn first_buy_units_closed(base_shares: u64, price: int) -> int {
    let by_cost = (100_000_000 + price - 1) / price;
    let by_base = (base_shares + SHARE_STEP - 1) / (SHARE_STEP as int);
    SHARE_STEP * (if by_cost >= by_base { by_cost } else { by_base })
}

/// The shares of a first buy at `price` (millionths of a dollar): the
/// larger of one dollar's worth and `base_shares`, rounded up to a
/// hundredth of a share. At a negative price one dollar's worth is
/// negative, so the base shares decide; at a price of zero it has no
/// bound.
pub open spec fn first_buy_units_of(base_shares: u64, price: i128) -> Shares {
    if price == 0 {
        Shares::Unbounded
    } else if price < 0 {
        Shares::Count(step_ceil(base_shares) as u64)
    } else {
        Shares::Count(first_buy_units_closed(base_shares, price as int) as u64)
    }
}

/// The closed form meets the definition of the units of a first buy and
/// fits in 64 bits.
pub proof fn lemma_first_buy_units_holds(base_shares: u64, price: int)
    requires
        price > 0,
        base_shares <= MAX_BASE_SHARES,
    ensures
        is_first_buy_units(first_buy_units_closed(base_shares, price), base_shares, price),
        0 <= first_buy_units_closed(base_shares, price) <= u64::MAX,
{
    let p = price;
    let b = base_shares as int;
    let kc = (100_000_000 + p - 1) / p;
    let kb = (b + 9_999) / 10_000;
    let k = if kc >= kb { kc } else { kb };
    assert(kc * p >= 100_000_000 && (kc - 1) * p < 100_000_000 && kc >= 1) by (nonlinear_arith)
        requires
            kc == (100_000_000 + p - 1) / p,
            p > 0,
    ;
    assert(kb * 10_000 >= b && (kb - 1) * 10_000 < b && kb >= 0) by (nonlinear_arith)
        requires
            kb == (b + 9_999) / 10_000,
            b >= 0,
    ;
    assert(k * p >= 100_000_000) by (nonlinear_arith)
        requires
            k >= kc,
            kc * p >= 100_000_000,
            p > 0,
    ;
    assert((10_000 * k) * p == 10_000 * (k * p)) by (nonlinear_arith);
    assert((10_000 * k - 10_000) * p == 10_000 * ((k - 1) * p)) by (nonlinear_arith);
    assert(kc <= 100_000_000) by (nonlinear_arith)
        requires
            kc == (100_000_000 + p - 1) / p,
            p >= 1,
    ;
    assert((10_000 * k) % 10_000 == 0) by (nonlinear_arith);
}

/// `base_shares` rounded up to a step is a multiple of the step, is at
/// least `base_shares`, is less than a step above it, and fits in 64 bits.
pub proof fn lemma_step_ceil(base_shares: u64)
    requires
        base_shares <= MAX_BASE_SHARES,
    ensures
        step_ceil(base_shares) % (SHARE_STEP as int) == 0,
        base_shares <= step_ceil(base_shares) < base_shares + SHARE_STEP,
        step_ceil(base_shares) <= u64::MAX,
{
    let b = base_shares as int;
    let kb = (b + 9_999) / 10_000;
    assert(kb * 10_000 >= b && (kb - 1) * 10_000 < b && kb >= 0) by (nonlinear_arith)
        requires
            kb == (b + 9_999) / 10_000,
            b >= 0,
    ;
    assert((10_000 * kb) % 10_000 == 0) by (nonlinear_arith);
}

/// More base shares never buy fewer shares, nor (at a positive price) cost
/// less.
pub proof fn lemma_first_buy_units_monotone(b1: u64, b2: u64, price: i128)
    requires
        b1 <= b2 <= MAX_BASE_SHARES,
        price != 0,
    ensures
        first_buy_units_of(b1, price)->Count_0 <= first_buy_units_of(b2, price)->Count_0,
        price > 0 ==> first_buy_units_of(b1, price)->Count_0 * price <= first_buy_units_of(
            b2,
            price,
        )->Count_0 * price,
{
    let k1 = (b1 + 9_999) / 10_000;
    let k2 = (b2 + 9_999) / 10_000;
    assert(k1 <= k2) by (nonlinear_arith)
        requires
            k1 == (b1 + 9_999) / 10_000,
            k2 == (b2 + 9_999) / 10_000,
            b1 <= b2,
    ;
    lemma_step_ceil(b1);
    lemma_step_ceil(b2);
    if price > 0 {
        lemma_first_buy_units_holds(b1, price as int);
        lemma_first_buy_units_holds(b2, price as int);
        let u1 = first_buy_units_closed(b1, price as int);
        let u2 = first_buy_units_closed(b2, price as int);
        assert(u1 <= u2);
        assert(u1 * price <= u2 * price) by (nonlinear_arith)
            requires
                u1 <= u2,
                price > 0,
        ;
    }
}

/// The shares a first buy at `price` takes: the larger of what one dollar
/// buys and `base_shares`, rounded up to a hundredth of a share; `base_shares`
/// rounded up at a negative price; no bound at a price of zero.
pub fn first_buy_units(base_shares: u64, price: i128) -> (r: Shares)
    requires
        base_shares <= MAX_BASE_SHARES,
    ensures
        r == first_buy_units_of(base_shares, price),
        price > 0 ==> (r matches Shares::Count(u) && is_first_buy_units(u as int, base_shares, price as int)),
        price < 0 ==> r == Shares::Count(step_ceil(base_shares) as u64),
{
    let by_base: u64 = base_shares / SHARE_STEP + if base_shares % SHARE_STEP != 0 { 1 } else { 0 };
    assert(by_base == (base_shares + 9_999) / 10_000) by (nonlinear_arith)
        requires
            by_base == base_shares / 10_000 + if base_shares % 10_000 != 0 { 1int } else { 0int },
    ;
    proof { lemma_step_ceil(base_shares); }
    if price == 0 {
        return Shares::Unbounded;
    }
    if price < 0 {
        return Shares::Count(SHARE_STEP * by_base);
    }
    proof { lemma_first_buy_units_holds(base_shares, price as int); }
    let by_cost_wide: i128 = 100_000_000i128 / price + if 100_000_000i128 % price != 0 { 1 } else { 0 };
    assert(by_cost_wide == (100_000_000 + price - 1) / (price as int)) by (nonlinear_arith)
        requires
            price > 0,
            by_cost_wide == 100_000_000i128 / price + if 100_000_000i128 % price != 0 { 1int } else { 0int },
    ;
    assert(by_cost_wide <= 100_000_000) by (nonlinear_arith)
        requires
            by_cost_wide == (100_000_000 + price - 1) / (price as int),
            price >= 1,
    ;
    let by_cost = by_cost_wide as u64;
    let steps = if by_cost >= by_base { by_cost } else { by_base };
    Shares::Count(SHARE_STEP * steps)
}

} // verus!
