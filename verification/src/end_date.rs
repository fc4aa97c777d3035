//! The end time of a market, from the text the market data gives.

use vstd::prelude::*;
use vstd::string::*;

verus! {

/// US Eastern daylight time: four hours west of UTC, in seconds east of UTC.
pub const EASTERN_OFFSET_SECS: i64 = -14_400;

/// The Unix seconds of the last second that chrono's `NaiveDateTime` can
/// hold (December 31 of the year 262142, 23:59:59).
pub const NAIVE_MAX_UNIX_SECONDS: i64 = 8_210_266_876_799;

/// Whether `c` has the Unicode `White_Space` property, which is what
/// `str::trim` removes.
pub open spec fn is_white_space(c: char) -> bool {
    let u = c as u32;
    ||| 0x9 <= u <= 0xd
    ||| u == 0x20
    ||| u == 0x85
    ||| u == 0xa0
    ||| u == 0x1680
    ||| 0x2000 <= u <= 0x200a
    ||| u == 0x2028
    ||| u == 0x2029
    ||| u == 0x202f
    ||| u == 0x205f
    ||| u == 0x3000
}

/// The first index from `i` on that is not white space (or the length).
pub open spec fn skip_white_space(s: Seq<char>, i: int) -> int
    decreases s.len() - i,
{
    if 0 <= i < s.len() && is_white_space(s[i]) {
        skip_white_space(s, i + 1)
    } else {
        i
    }
}

/// The end, at `lo` or after, of `s[lo..j]` without its trailing white
/// space.
pub open spec fn drop_white_space_back(s: Seq<char>, lo: int, j: int) -> int
    decreases j - lo,
{
    if lo < j && is_white_space(s[j - 1]) {
        drop_white_space_back(s, lo, j - 1)
    } else {
        j
    }
}

/// `s` without leading and trailing white space.
pub open spec fn trimmed(s: Seq<char>) -> Seq<char> {
    let a = skip_white_space(s, 0);
    s.subrange(a, drop_white_space_back(s, a, s.len() as int))
}

/// Name for what chrono's `DateTime::parse_from_rfc3339` gives for a
/// text, taken as Unix seconds: none where the text is not an RFC 3339
/// date and time with an offset.
pub uninterp spec fn rfc3339_unix_seconds(s: Seq<char>) -> Option<i64>;

/// Name for what chrono's `NaiveDateTime::parse_from_str` gives for a text
/// and a format, taken as the Unix seconds of that date and time read as
/// UTC: none where the text does not match the format.
pub uninterp spec fn naive_unix_seconds(s: Seq<char>, fmt: Seq<char>) -> Option<i64>;

/// Parses an RFC 3339 date and time with chrono's
/// `DateTime::parse_from_rfc3339`; what it returns is its Unix seconds.
/// Nothing is claimed of which texts chrono accepts: the result is the
/// name `rfc3339_unix_seconds` of the text.
#[verifier::external_body]
fn parse_rfc3339_seconds(s: &str) -> (r: Option<i64>)
    ensures
        r == rfc3339_unix_seconds(s@),
{
    chrono::DateTime::parse_from_rfc3339(s).ok().map(|dt| dt.timestamp())
}

/// Parses a date and time without offset with chrono's
/// `NaiveDateTime::parse_from_str`; what it returns is its Unix seconds
/// when read as UTC. Nothing is claimed of which texts match a format: the
/// result is the name `naive_unix_seconds` of the text and the format.
#[verifier::external_body]
fn parse_naive_seconds(s: &str, fmt: &str) -> (r: Option<i64>)
    ensures
        r == naive_unix_seconds(s@, fmt@),
{
    chrono::NaiveDateTime::parse_from_str(s, fmt).ok().map(|naive| naive.and_utc().timestamp())
}

/// The Unix seconds of a date and time read in US Eastern time, given its
/// seconds when read as UTC: none where the result lies beyond the last
/// date and time chrono can hold. Negative seconds wrap as a cast to `u64`
/// does.
pub open spec fn eastern_unix(naive_secs: i64) -> Option<u64> {
    if naive_secs - EASTERN_OFFSET_SECS <= NAIVE_MAX_UNIX_SECONDS {
        Some(((naive_secs - EASTERN_OFFSET_SECS) as i64) as u64)
    } else {
        None
    }
}

/// The end time of a text with no offset: the first of the accepted
/// formats that matches it, read in US Eastern time.
pub open spec fn naive_end_unix(t: Seq<char>) -> Option<u64> {
    match naive_unix_seconds(t, "%Y-%m-%dT%H:%M:%S%.f"@) {
        Some(n) => eastern_unix(n),
        None => match naive_unix_seconds(t, "%Y-%m-%dT%H:%M:%S"@) {
            Some(n) => eastern_unix(n),
            None => match naive_unix_seconds(t, "%Y-%m-%d %H:%M:%S"@) {
                Some(n) => eastern_unix(n),
                None => match naive_unix_seconds(t, "%Y-%m-%dT%H:%M:%S%.3f"@) {
                    Some(n) => eastern_unix(n),
                    None => None,
                },
            },
        },
    }
}

/// The end time that an ISO 8601 text gives, as Unix seconds.
pub open spec fn end_date_unix(s: Seq<char>) -> Option<u64> {
    let t = trimmed(s);
    if t.len() == 0 {
        None
    } else {
        match rfc3339_unix_seconds(t) {
            Some(v) => Some(v as u64),
            None => naive_end_unix(t),
        }
    }
}

fn white_space(c: char) -> (r: bool)
    ensures
        r == is_white_space(c),
{
    let u = c as u32;
    (0x9 <= u && u <= 0xd) || u == 0x20 || u == 0x85 || u == 0xa0 || u == 0x1680 || (0x2000 <= u
        && u <= 0x200a) || u == 0x2028 || u == 0x2029 || u == 0x202f || u == 0x205f || u == 0x3000
}

/// `s` without leading and trailing white space, as `str::trim` gives it.
pub fn trim_text(s: &str) -> (r: &str)
    ensures
        r@ == trimmed(s@),
{
    let n = s.unicode_len();
    let mut start: usize = 0;
    while start < n && white_space(s.get_char(start))
        invariant
            n == s@.len(),
            start <= n,
            skip_white_space(s@, start as int) == skip_white_space(s@, 0),
        decreases n - start,
    {
        start = start + 1;
    }
    assert(skip_white_space(s@, start as int) == start);
    let mut end: usize = n;
    while end > start && white_space(s.get_char(end - 1))
        invariant
            n == s@.len(),
            start <= end <= n,
            skip_white_space(s@, 0) == start,
            drop_white_space_back(s@, start as int, end as int) == drop_white_space_back(
                s@,
                start as int,
                n as int,
            ),
        decreases end - start,
    {
        end = end - 1;
    }
    assert(drop_white_space_back(s@, start as int, end as int) == end);
    s.substring_char(start, end)
}

/// The Unix seconds of a date and time read in US Eastern time, given its
/// seconds when read as UTC; see [`eastern_unix`].
pub fn eastern_seconds(naive_secs: i64) -> (r: Option<u64>)
    ensures
        r == eastern_unix(naive_secs),
{
    if naive_secs <= NAIVE_MAX_UNIX_SECONDS + EASTERN_OFFSET_SECS {
        let utc = naive_secs - EASTERN_OFFSET_SECS;
        Some(#[verifier::truncate] (utc as u64))
    } else {
        None
    }
}

/// Parses an ISO 8601 end date to Unix seconds; none where it cannot be
/// parsed. Surrounding white space is ignored. A text with an offset (`Z`,
/// `+00:00`, `-05:00`, ...) is taken as it is; a text without one (such as
/// `2026-03-05T19:00:00`) is taken in US Eastern time, as sports and
/// politics markets give game times there. A date before 1970 wraps as a
/// cast to `u64` does.
pub fn parse_end_date_iso(s: &str) -> (r: Option<u64>)
    ensures
        r == end_date_unix(s@),
{
    let t = trim_text(s);
    if t.unicode_len() == 0 {
        return None;
    }
    if let Some(v) = parse_rfc3339_seconds(t) {
        return Some(#[verifier::truncate] (v as u64));
    }
    if let Some(n) = parse_naive_seconds(t, "%Y-%m-%dT%H:%M:%S%.f") {
        return eastern_seconds(n);
    }
    if let Some(n) = parse_naive_seconds(t, "%Y-%m-%dT%H:%M:%S") {
        return eastern_seconds(n);
    }
    if let Some(n) = parse_naive_seconds(t, "%Y-%m-%d %H:%M:%S") {
        return eastern_seconds(n);
    }
    if let Some(n) = parse_naive_seconds(t, "%Y-%m-%dT%H:%M:%S%.3f") {
        return eastern_seconds(n);
    }
    None
}

/// The end of a market from its end dates as the market details, the
/// market record and its alternate field give them: the first of them
/// that parses.
pub fn resolve_end_timestamp(details_end: &str, market_end: Option<&str>, market_end_alt: Option<
    &str,
>) -> (r: Option<u64>)
    ensures
        r == (match end_date_unix(details_end@) {
            Some(v) => Some(v),
            None => match market_end {
                Some(m) => match end_date_unix(m@) {
                    Some(v) => Some(v),
                    None => match market_end_alt {
                        Some(a) => end_date_unix(a@),
                        None => None,
                    },
                },
                None => match market_end_alt {
                    Some(a) => end_date_unix(a@),
                    None => None,
                },
            },
        }),
{
    if let Some(v) = parse_end_date_iso(details_end) {
        return Some(v);
    }
    if let Some(m) = market_end {
        if let Some(v) = parse_end_date_iso(m) {
            return Some(v);
        }
    }
    match market_end_alt {
        Some(a) => parse_end_date_iso(a),
        None => None,
    }
}

} // verus!
