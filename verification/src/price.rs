//! Prices of outcome tokens as fixed-point integers.

use vstd::prelude::*;

verus! {

/// One dollar, in the fixed-point unit of prices (a millionth of a dollar).
pub const PRICE_ONE: i128 = 1_000_000;

/// The largest magnitude of a price that a decimal of the market data can
/// give, in millionths: `(2^96 - 1) * 10^6`.
pub const PRICE_BOUND: i128 = 79_228_162_514_264_337_593_543_950_335_000_000;

/// Whether `p` lies within the prices a decimal can give.
pub open spec fn price_in_range(p: i128) -> bool {
    -PRICE_BOUND <= p <= PRICE_BOUND
}

/// The largest scale a decimal price can have.
pub const MAX_DECIMAL_SCALE: u32 = 28;

/// A decimal number as the market data reports it: `mantissa / 10^scale`.
#[derive(Clone, Copy, Debug, PartialEq, Eq)]
pub struct PriceDecimal {
    pub mantissa: i128,
    pub scale: u32,
}

/// `10^n`.
pub open spec fn pow10(n: nat) -> nat
    decreases n,
{
    if n == 0 { 1 } else { 10 * pow10((n - 1) as nat) }
}

proof fn lemma_pow10_monotone(a: nat, b: nat)
    requires
        a <= b,
    ensures
        1 <= pow10(a) <= pow10(b),
    decreases b,
{
    if b > a {
        lemma_pow10_monotone(a, (b - 1) as nat);
    } else if a > 0 {
        lemma_pow10_monotone((a - 1) as nat, (a - 1) as nat);
    }
}

proof fn lemma_pow10_28()
    ensures
        pow10(28) == 10000000000000000000000000000nat,
{
    reveal_with_fuel(pow10, 29);
}

impl PriceDecimal {
    /// The range that a decimal of the market data can take: a 96-bit
    /// mantissa and a scale of at most 28.
    pub open spec fn wf(self) -> bool {
        &&& -0x1_0000_0000_0000_0000_0000_0000 < self.mantissa < 0x1_0000_0000_0000_0000_0000_0000
        &&& self.scale <= MAX_DECIMAL_SCALE
    }

    /// The decimal in millionths, rounded toward zero.
    pub open spec fn micros(self) -> i128 {
        let p = pow10(self.scale as nat) as int;
        if self.mantissa >= 0 {
            ((self.mantissa * PRICE_ONE) / p) as i128
        } else {
            (-((-self.mantissa * PRICE_ONE) / p)) as i128
        }
    }

    /// Converts the decimal to millionths, rounding toward zero.
    pub fn to_micros(&self) -> (r: i128)
        requires
            self.wf(),
        ensures
            r == self.micros(),
            price_in_range(r),
    {
        let mut p: u128 = 1;
        let mut i: u32 = 0;
        while i < self.scale
            invariant
                i <= self.scale <= MAX_DECIMAL_SCALE,
                p == pow10(i as nat),
            decreases self.scale - i,
        {
            proof {
                lemma_pow10_monotone((i + 1) as nat, 28);
                lemma_pow10_28();
            }
            p = p * 10;
            i = i + 1;
        }
        proof { lemma_pow10_monotone(0, self.scale as nat); }
        let magnitude: u128 = if self.mantissa >= 0 {
            self.mantissa as u128
        } else {
            (-self.mantissa) as u128
        };
        let scaled = (magnitude * 1_000_000) / p;
        assert(scaled <= magnitude * 1_000_000) by (nonlinear_arith)
            requires
                p >= 1,
                scaled == (magnitude * 1_000_000) / (p as int),
        ;
        if self.mantissa >= 0 {
            scaled as i128
        } else {
            -(scaled as i128)
        }
    }
}

/// The quoted prices of one outcome token, as the market data gives them:
/// either side may be missing.
#[derive(Debug)]
pub struct TokenQuote {
    pub token_id: String,
    pub bid: Option<PriceDecimal>,
    pub ask: Option<PriceDecimal>,
}

impl TokenQuote {
    pub open spec fn wf(&self) -> bool {
        &&& (self.bid matches Some(b) ==> b.wf())
        &&& (self.ask matches Some(a) ==> a.wf())
    }
}

/// The bid, or zero where there is none.
pub open spec fn bid_of(t: TokenQuote) -> i128 {
    match t.bid {
        Some(d) => d.micros(),
        None => 0,
    }
}

/// The ask; where there is none, the bid; where neither, zero.
pub open spec fn ask_of(t: TokenQuote) -> i128 {
    match t.ask {
        Some(d) => d.micros(),
        None => bid_of(t),
    }
}

/// The bid price of a token in millionths of a dollar, zero when the
/// quote has no bid.
pub fn bid_price(token: &TokenQuote) -> (r: i128)
    requires
        token.wf(),
    ensures
        r == bid_of(*token),
        token.bid matches Some(d) ==> r == d.micros(),
        token.bid is None ==> r == 0,
        price_in_range(r),
{
    match &token.bid {
        Some(d) => d.to_micros(),
        None => 0,
    }
}

/// The ask price of a token in millionths of a dollar; the bid stands in
/// for a missing ask, and zero for a missing bid.
pub fn ask_price(token: &TokenQuote) -> (r: i128)
    requires
        token.wf(),
    ensures
        r == ask_of(*token),
        token.ask matches Some(d) ==> r == d.micros(),
        token.ask is None ==> r == bid_of(*token),
        price_in_range(r),
{
    match &token.ask {
        Some(d) => d.to_micros(),
        None => bid_price(token),
    }
}

/// A quote's ask is used whenever it has one, whatever its bid; the bid
/// stands in only for a missing ask, and zero only for a quote with
/// neither.
pub proof fn lemma_ask_prefers_quoted_ask(t: TokenQuote)
    ensures
        t.ask matches Some(d) ==> ask_of(t) == d.micros(),
        t.ask is None ==> (t.bid matches Some(b) ==> ask_of(t) == b.micros()),
        t.ask is None && t.bid is None ==> ask_of(t) == 0,
        t.bid matches Some(b) ==> bid_of(t) == b.micros(),
        t.bid is None ==> bid_of(t) == 0,
{
}

/// A decimal converts to millionths rounded toward zero: the result is
/// within one millionth of the decimal's value, on the same side of zero.
pub proof fn lemma_micros_close_to_value(d: PriceDecimal)
    requires
        d.wf(),
    ensures
        ({
            let p = pow10(d.scale as nat) as int;
            let exact = d.mantissa * PRICE_ONE;
            &&& d.mantissa >= 0 ==> d.micros() * p <= exact < (d.micros() + 1) * p
            &&& d.mantissa < 0 ==> (d.micros() - 1) * p < exact <= d.micros() * p
        }),
{
    let p = pow10(d.scale as nat) as int;
    lemma_pow10_monotone(0, d.scale as nat);
    lemma_pow10_monotone(d.scale as nat, 28);
    lemma_pow10_28();
    let m = d.mantissa as int;
    if m >= 0 {
        let q = (m * 1_000_000) / p;
        assert(q * p <= m * 1_000_000 < (q + 1) * p) by (nonlinear_arith)
            requires
                q == (m * 1_000_000) / p,
                p >= 1,
        ;
        assert(0 <= q <= m * 1_000_000) by (nonlinear_arith)
            requires
                q == (m * 1_000_000) / p,
                p >= 1,
                0 <= m,
        ;
        assert(d.micros() == q);
        assert(q * p <= m * 1_000_000 < (q + 1) * p);
    } else {
        let q = (-m * 1_000_000) / p;
        assert(q * p <= -m * 1_000_000 < (q + 1) * p) by (nonlinear_arith)
            requires
                q == (-m * 1_000_000) / p,
                p >= 1,
        ;
        assert(0 <= q <= -m * 1_000_000) by (nonlinear_arith)
            requires
                q == (-m * 1_000_000) / p,
                p >= 1,
                0 < -m,
        ;
        assert(d.micros() == -q);
        assert((-q - 1) * p < m * 1_000_000 <= -q * p) by (nonlinear_arith)
            requires
                q * p <= -m * 1_000_000 < (q + 1) * p,
        ;
    }
}

/// Builds the quote of a token from the two sides that were fetched for
/// it; there is no quote when neither side could be fetched.
pub fn token_quote(token_id: String, bid: Option<PriceDecimal>, ask: Option<PriceDecimal>) -> (r:
    Option<TokenQuote>)
    ensures
        r is Some <==> (bid is Some || ask is Some),
        r matches Some(q) ==> q.token_id == token_id && q.bid == bid && q.ask == ask,
{
    if bid.is_some() || ask.is_some() {
        Some(TokenQuote { token_id, bid, ask })
    } else {
        None
    }
}

} // verus!
