//! What is shown to the operator: the time left before a market's end and
//! the trailed lows with the asks that would trigger a buy.

use vstd::prelude::*;
use crate::price::price_in_range;
use crate::trailing::{Asks, MarketKind, TrailingState, MAX_TRAILING_STOP};

verus! {

/// The character of a decimal digit.
pub open spec fn digit_char(d: nat) -> char {
    if d == 0 { '0' }
    else if d == 1 { '1' }
    else if d == 2 { '2' }
    else if d == 3 { '3' }
    else if d == 4 { '4' }
    else if d == 5 { '5' }
    else if d == 6 { '6' }
    else if d == 7 { '7' }
    else if d == 8 { '8' }
    else { '9' }
}

/// The decimal text of `n`, without leading zeros ("0" for zero).
pub open spec fn decimal_text(n: nat) -> Seq<char>
    decreases n,
{
    if n < 10 {
        seq![digit_char(n)]
    } else {
        decimal_text(n / 10) + seq![digit_char(n % 10)]
    }
}

/// The decimal text of `n`, padded with a leading zero to two characters.
pub open spec fn two_digit_text(n: nat) -> Seq<char> {
    if n < 10 {
        seq!['0', digit_char(n)]
    } else {
        decimal_text(n)
    }
}

/// "{h}h {mm}m {ss}s", "{m}m {ss}s" or "{s}s", whichever is the shortest
/// that shows every non-zero unit of `secs`.
pub open spec fn remaining_hms_text(secs: nat) -> Seq<char> {
    let h = secs / 3600;
    let m = (secs % 3600) / 60;
    let s = secs % 60;
    if h > 0 {
        decimal_text(h) + seq!['h', ' '] + two_digit_text(m) + seq!['m', ' '] + two_digit_text(s)
            + seq!['s']
    } else if m > 0 {
        decimal_text(m) + seq!['m', ' '] + two_digit_text(s) + seq!['s']
    } else {
        decimal_text(s) + seq!['s']
    }
}

/// One step of reading a time text back: a digit extends the number being
/// read; `h`, `m` and `s` add it to the total as hours, minutes or seconds
/// and start a new number; any other character is skipped.
pub open spec fn read_step(acc: (int, int), c: char) -> (int, int) {
    let u = c as u32;
    if 48 <= u <= 57 {
        (acc.0, acc.1 * 10 + (u - 48))
    } else if c == 'h' {
        (acc.0 + acc.1 * 3600, 0)
    } else if c == 'm' {
        (acc.0 + acc.1 * 60, 0)
    } else if c == 's' {
        (acc.0 + acc.1, 0)
    } else {
        acc
    }
}

/// Reads `t` from the state `acc` (total, number being read).
pub open spec fn read_from(acc: (int, int), t: Seq<char>) -> (int, int)
    decreases t.len(),
{
    if t.len() == 0 {
        acc
    } else {
        read_from(read_step(acc, t[0]), t.drop_first())
    }
}

/// The seconds that a time text such as "1h 02m 05s" stands for.
pub open spec fn read_hms(t: Seq<char>) -> int {
    read_from((0, 0), t).0
}

proof fn lemma_read_concat(acc: (int, int), t1: Seq<char>, t2: Seq<char>)
    ensures
        read_from(acc, t1 + t2) == read_from(read_from(acc, t1), t2),
    decreases t1.len(),
{
    if t1.len() == 0 {
        assert(t1 + t2 =~= t2);
    } else {
        assert((t1 + t2).drop_first() =~= t1.drop_first() + t2);
        assert((t1 + t2)[0] == t1[0]);
        lemma_read_concat(read_step(acc, t1[0]), t1.drop_first(), t2);
    }
}

proof fn lemma_read_one(acc: (int, int), c: char)
    ensures
        read_from(acc, seq![c]) == read_step(acc, c),
{
    assert(seq![c].drop_first() =~= Seq::<char>::empty());
    assert(seq![c][0] == c);
    assert(read_from(read_step(acc, c), Seq::<char>::empty()) == read_step(acc, c));
}

proof fn lemma_digit_char(d: nat)
    requires
        d < 10,
    ensures
        digit_char(d) as u32 == 48 + d,
{
}

proof fn lemma_read_decimal(total: int, n: nat)
    ensures
        read_from((total, 0), decimal_text(n)) == (total, n as int),
    decreases n,
{
    if n < 10 {
        lemma_digit_char(n);
        lemma_read_one((total, 0), digit_char(n));
    } else {
        lemma_read_concat((total, 0), decimal_text(n / 10), seq![digit_char(n % 10)]);
        lemma_read_decimal(total, n / 10);
        lemma_digit_char(n % 10);
        lemma_read_one((total, (n / 10) as int), digit_char(n % 10));
    }
}

proof fn lemma_read_two_digits(total: int, n: nat)
    requires
        n < 60,
    ensures
        read_from((total, 0), two_digit_text(n)) == (total, n as int),
{
    if n < 10 {
        lemma_digit_char(0);
        lemma_digit_char(n);
        lemma_read_concat((total, 0), seq!['0'], seq![digit_char(n)]);
        assert(seq!['0'] + seq![digit_char(n)] =~= seq!['0', digit_char(n)]);
        lemma_read_one((total, 0), '0');
        lemma_read_one((total, 0), digit_char(n));
    } else {
        lemma_read_decimal(total, n);
    }
}

/// Reading the hours, minutes and seconds of the text of `secs` back gives
/// `secs`.
pub proof fn lemma_hms_reads_back(secs: nat)
    ensures
        read_hms(remaining_hms_text(secs)) == secs,
{
    let h = secs / 3600;
    let m = (secs % 3600) / 60;
    let s = secs % 60;
    let hs = seq!['h', ' '];
    let ms = seq!['m', ' '];
    let ss = seq!['s'];
    lemma_read_one((0, 0), 'h');
    assert(read_from((0, h as int), hs) == ((h * 3600) as int, 0int)) by {
        lemma_read_concat((0, h as int), seq!['h'], seq![' ']);
        assert(seq!['h'] + seq![' '] =~= hs);
        lemma_read_one((0, h as int), 'h');
        lemma_read_one(((h * 3600) as int, 0), ' ');
    }
    assert forall|t: int, v: int| read_from((t, v), ms) == (t + v * 60, 0int) by {
        lemma_read_concat((t, v), seq!['m'], seq![' ']);
        assert(seq!['m'] + seq![' '] =~= ms);
        lemma_read_one((t, v), 'm');
        lemma_read_one((t + v * 60, 0), ' ');
    }
    assert forall|t: int, v: int| read_from((t, v), ss) == (t + v, 0int) by {
        lemma_read_one((t, v), 's');
    }
    if h > 0 {
        let a = decimal_text(h);
        let b = two_digit_text(m);
        let c = two_digit_text(s);
        assert(remaining_hms_text(secs) == a + hs + b + ms + c + ss);
        lemma_read_concat((0, 0), a + hs + b + ms + c, ss);
        lemma_read_concat((0, 0), a + hs + b + ms, c);
        lemma_read_concat((0, 0), a + hs + b, ms);
        lemma_read_concat((0, 0), a + hs, b);
        lemma_read_concat((0, 0), a, hs);
        lemma_read_decimal(0, h);
        lemma_read_two_digits((h * 3600) as int, m);
        lemma_read_two_digits((h * 3600 + m * 60) as int, s);
    } else if m > 0 {
        let a = decimal_text(m);
        let c = two_digit_text(s);
        assert(remaining_hms_text(secs) == a + ms + c + ss);
        lemma_read_concat((0, 0), a + ms + c, ss);
        lemma_read_concat((0, 0), a + ms, c);
        lemma_read_concat((0, 0), a, ms);
        lemma_read_decimal(0, m);
        lemma_read_two_digits((m * 60) as int, s);
    } else {
        let a = decimal_text(s);
        assert(remaining_hms_text(secs) == a + ss);
        lemma_read_concat((0, 0), a, ss);
        lemma_read_decimal(0, s);
    }
}

/// Different numbers of seconds are shown as different texts.
pub proof fn lemma_hms_text_injective(a: nat, b: nat)
    ensures
        remaining_hms_text(a) == remaining_hms_text(b) ==> a == b,
{
    lemma_hms_reads_back(a);
    lemma_hms_reads_back(b);
}

fn digit_str(d: u64) -> (r: &'static str)
    requires
        d < 10,
    ensures
        r@ == seq![digit_char(d as nat)],
{
    if d == 0 {
        proof { reveal_strlit("0"); }
        "0"
    } else if d == 1 {
        proof { reveal_strlit("1"); }
        "1"
    } else if d == 2 {
        proof { reveal_strlit("2"); }
        "2"
    } else if d == 3 {
        proof { reveal_strlit("3"); }
        "3"
    } else if d == 4 {
        proof { reveal_strlit("4"); }
        "4"
    } else if d == 5 {
        proof { reveal_strlit("5"); }
        "5"
    } else if d == 6 {
        proof { reveal_strlit("6"); }
        "6"
    } else if d == 7 {
        proof { reveal_strlit("7"); }
        "7"
    } else if d == 8 {
        proof { reveal_strlit("8"); }
        "8"
    } else {
        proof { reveal_strlit("9"); }
        "9"
    }
}

/// Appends the decimal text of `n` to `out`.
fn push_decimal(out: &mut String, n: u64)
    ensures
        final(out)@ == old(out)@ + decimal_text(n as nat),
    decreases n,
{
    if n >= 10 {
        push_decimal(out, n / 10);
    }
    out.append(digit_str(n % 10));
    assert(final(out)@ =~= old(out)@ + decimal_text(n as nat));
}

/// Appends `n` (below 60) as two digits to `out`.
fn push_two_digits(out: &mut String, n: u64)
    requires
        n < 60,
    ensures
        final(out)@ == old(out)@ + two_digit_text(n as nat),
{
    if n < 10 {
        out.append(digit_str(0));
        out.append(digit_str(n));
        assert(final(out)@ =~= old(out)@ + two_digit_text(n as nat));
    } else {
        push_decimal(out, n);
    }
}

/// Formats a number of seconds as hours, minutes and seconds, leaving out
/// leading units that are zero: 3725 gives "1h 02m 05s", 65 gives
/// "1m 05s" and 5 gives "5s".
pub fn format_remaining_hms(secs: u64) -> (r: String)
    ensures
        r@ == remaining_hms_text(secs as nat),
{
    let h = secs / 3600;
    let m = (secs % 3600) / 60;
    let s = secs % 60;
    let mut out = String::new();
    if h > 0 {
        push_decimal(&mut out, h);
        proof { reveal_strlit("h "); }
        out.append("h ");
        push_two_digits(&mut out, m);
        proof { reveal_strlit("m "); }
        out.append("m ");
        push_two_digits(&mut out, s);
        proof { reveal_strlit("s"); }
        out.append("s");
    } else if m > 0 {
        push_decimal(&mut out, m);
        proof { reveal_strlit("m "); }
        out.append("m ");
        push_two_digits(&mut out, s);
        proof { reveal_strlit("s"); }
        out.append("s");
    } else {
        push_decimal(&mut out, s);
        proof { reveal_strlit("s"); }
        out.append("s");
    }
    assert(out@ =~= remaining_hms_text(secs as nat));
    out
}

/// The trailed low of each token and the ask at which it triggers, as shown
/// after each round of prices. Unused places are zero.
#[derive(Clone, Copy, Debug, PartialEq, Eq)]
pub struct TrailLevels {
    pub low0: i128,
    pub low1: i128,
    pub low2: i128,
    pub trigger0: i128,
    pub trigger1: i128,
    pub trigger2: i128,
}

/// The levels to show: in a two-outcome market the lows of a first-leg
/// trail, or the opposite token's lowest (in both places) while the second
/// leg is trailed; in a three-outcome market the lows of a first-leg trail,
/// or the two remaining tokens' lows while the second leg is trailed; in
/// any other state the current asks. A trigger is its low plus the stop.
pub open spec fn trail_levels_of(s: TrailingState, q: Asks, stop: i128, kind: MarketKind) -> TrailLevels {
    let (l0, l1, l2, t2): (i128, i128, i128, bool) = match kind {
        MarketKind::ThreeWay => match s {
            TrailingState::WaitingFirst3 { low0, low1, low2, .. } => (low0, low1, low2, true),
            TrailingState::FirstBought3 { rem1_low, rem2_low, .. } => (rem1_low, rem2_low, 0, false),
            _ => (q.ask0, q.ask1, q.ask2, true),
        },
        MarketKind::Binary => match s {
            TrailingState::WaitingFirst { low0, low1, .. } => (low0, low1, 0, false),
            TrailingState::FirstBought { opposite_lowest, .. } => (
                opposite_lowest,
                opposite_lowest,
                0,
                false,
            ),
            _ => (q.ask0, q.ask1, 0, false),
        },
    };
    TrailLevels {
        low0: l0,
        low1: l1,
        low2: l2,
        trigger0: (l0 + stop) as i128,
        trigger1: (l1 + stop) as i128,
        trigger2: if t2 { (l2 + stop) as i128 } else { 0 },
    }
}

/// Computes the levels to show after a round of prices; see
/// [`trail_levels_of`].
pub fn trail_levels(s: &TrailingState, q: &Asks, stop: i128, kind: MarketKind) -> (r: TrailLevels)
    requires
        s.wf(),
        q.wf(),
        -MAX_TRAILING_STOP <= stop <= MAX_TRAILING_STOP,
    ensures
        r == trail_levels_of(*s, *q, stop, kind),
        r.trigger0 == r.low0 + stop,
        r.trigger1 == r.low1 + stop,
        (kind == MarketKind::ThreeWay && !(*s is FirstBought3)) ==> r.trigger2 == r.low2 + stop,
{
    let (l0, l1, l2, t2): (i128, i128, i128, bool) = match kind {
        MarketKind::ThreeWay => match *s {
            TrailingState::WaitingFirst3 { low0, low1, low2, .. } => (low0, low1, low2, true),
            TrailingState::FirstBought3 { rem1_low, rem2_low, .. } => (rem1_low, rem2_low, 0, false),
            _ => (q.ask0, q.ask1, q.ask2, true),
        },
        MarketKind::Binary => match *s {
            TrailingState::WaitingFirst { low0, low1, .. } => (low0, low1, 0, false),
            TrailingState::FirstBought { opposite_lowest, .. } => (
                opposite_lowest,
                opposite_lowest,
                0,
                false,
            ),
            _ => (q.ask0, q.ask1, 0, false),
        },
    };
    assert(price_in_range(l0) && price_in_range(l1) && price_in_range(l2));
    TrailLevels {
        low0: l0,
        low1: l1,
        low2: l2,
        trigger0: l0 + stop,
        trigger1: l1 + stop,
        trigger2: if t2 { l2 + stop } else { 0 },
    }
}

/// Each level shown is a trail's low with its trigger at the low plus the
/// stop. In a three-outcome market a first-leg trail shows its three lows
/// and a second-leg trail the two remaining tokens' lows (the third place
/// empty); in a two-outcome market a first-leg trail shows its two lows and
/// a second-leg trail the opposite token's lowest twice; any other state
/// shows the asks.
pub proof fn lemma_levels_are_lows_with_triggers(
    s: TrailingState,
    q: Asks,
    stop: i128,
    kind: MarketKind,
)
    requires
        s.wf(),
        q.wf(),
        -MAX_TRAILING_STOP <= stop <= MAX_TRAILING_STOP,
    ensures
        ({
            let r = trail_levels_of(s, q, stop, kind);
            &&& r.trigger0 == r.low0 + stop
            &&& r.trigger1 == r.low1 + stop
            &&& (kind == MarketKind::ThreeWay && !(s is FirstBought3)) ==> r.trigger2 == r.low2
                + stop
            &&& kind == MarketKind::ThreeWay ==> match s {
                TrailingState::WaitingFirst3 { low0, low1, low2, .. } => r.low0 == low0 && r.low1
                    == low1 && r.low2 == low2,
                TrailingState::FirstBought3 { rem1_low, rem2_low, .. } => r.low0 == rem1_low
                    && r.low1 == rem2_low && r.low2 == 0 && r.trigger2 == 0,
                _ => r.low0 == q.ask0 && r.low1 == q.ask1 && r.low2 == q.ask2,
            }
            &&& kind == MarketKind::Binary ==> r.low2 == 0 && r.trigger2 == 0 && match s {
                TrailingState::WaitingFirst { low0, low1, .. } => r.low0 == low0 && r.low1 == low1,
                TrailingState::FirstBought { opposite_lowest, .. } => r.low0 == opposite_lowest
                    && r.low1 == opposite_lowest,
                _ => r.low0 == q.ask0 && r.low1 == q.ask1,
            }
        }),
{
    let r = trail_levels_of(s, q, stop, kind);
    assert(price_in_range(r.low0) && price_in_range(r.low1) && price_in_range(r.low2));
}

} // verus!
