use sports_trailing::clock::{
    effective_time_remaining, on_market_status, period_timestamp, time_remaining,
    ClosedCheckCounter, StatusOutcome, CLOSED_CHECK_INTERVAL, UNKNOWN_END_REMAINING,
};
use sports_trailing::display::{format_remaining_hms, trail_levels, TrailLevels};
use sports_trailing::end_date::{eastern_seconds, parse_end_date_iso, resolve_end_timestamp, trim_text};
use sports_trailing::sizing::Shares;
use sports_trailing::trailing::{Asks, MarketKind, TrailingState};

#[test]
fn hms_with_hours() {
    assert_eq!(format_remaining_hms(3725), "1h 02m 05s");
    assert_eq!(format_remaining_hms(3600), "1h 00m 00s");
    assert_eq!(format_remaining_hms(90061), "25h 01m 01s");
}

#[test]
fn hms_with_minutes() {
    assert_eq!(format_remaining_hms(65), "1m 05s");
    assert_eq!(format_remaining_hms(3599), "59m 59s");
    assert_eq!(format_remaining_hms(600), "10m 00s");
}

#[test]
fn hms_seconds_only() {
    assert_eq!(format_remaining_hms(5), "5s");
    assert_eq!(format_remaining_hms(0), "0s");
    assert_eq!(format_remaining_hms(59), "59s");
}

#[test]
fn hms_largest_input() {
    assert_eq!(format_remaining_hms(u64::MAX), "5124095576030431h 00m 15s");
}

#[test]
fn trim_removes_unicode_white_space() {
    assert_eq!(trim_text("  a b \t\n"), "a b");
    assert_eq!(trim_text("\u{3000}x\u{a0}"), "x");
    assert_eq!(trim_text(" \t "), "");
    assert_eq!(trim_text(""), "");
}

#[test]
fn end_date_with_offset_is_taken_as_is() {
    assert_eq!(parse_end_date_iso("2026-03-05T19:00:00Z"), Some(1772737200));
    assert_eq!(parse_end_date_iso("2026-03-05T19:00:00+00:00"), Some(1772737200));
    assert_eq!(parse_end_date_iso("2026-03-05T19:00:00-05:00"), Some(1772755200));
    assert_eq!(parse_end_date_iso("  2026-03-05T19:00:00Z \n"), Some(1772737200));
}

#[test]
fn end_date_without_offset_is_eastern() {
    assert_eq!(parse_end_date_iso("2026-03-05T19:00:00"), Some(1772751600));
    assert_eq!(parse_end_date_iso("2026-03-05 19:00:00"), Some(1772751600));
    assert_eq!(parse_end_date_iso("2026-03-05T19:00:00.250"), Some(1772751600));
    assert_eq!(parse_end_date_iso("2026-03-05T19:00:00.123456"), Some(1772751600));
}

#[test]
fn end_date_unparseable() {
    assert_eq!(parse_end_date_iso(""), None);
    assert_eq!(parse_end_date_iso("   "), None);
    assert_eq!(parse_end_date_iso("tomorrow"), None);
    assert_eq!(parse_end_date_iso("2026-03-05"), None);
}

#[test]
fn end_date_before_epoch_wraps() {
    assert_eq!(parse_end_date_iso("1969-12-31T23:59:59Z"), Some(u64::MAX));
}

#[test]
fn end_date_at_the_last_date_chrono_holds() {
    assert_eq!(parse_end_date_iso("+262142-12-31T19:00:00"), Some(8_210_266_873_200));
    assert_eq!(parse_end_date_iso("+262142-12-31T20:00:00"), None);
}

#[test]
fn end_date_fallbacks() {
    assert_eq!(
        resolve_end_timestamp("", Some("bad"), Some("2026-03-05T19:00:00Z")),
        Some(1772737200)
    );
    assert_eq!(
        resolve_end_timestamp("", Some("2026-03-05T19:00:00"), Some("2026-03-05T19:00:00Z")),
        Some(1772751600)
    );
    assert_eq!(
        resolve_end_timestamp("2026-03-05T19:00:00Z", None, Some("2026-03-05T19:00:00")),
        Some(1772737200)
    );
    assert_eq!(resolve_end_timestamp("x", None, None), None);
}

#[test]
fn eastern_shift_and_limit() {
    assert_eq!(eastern_seconds(0), Some(14_400));
    assert_eq!(eastern_seconds(-14_400), Some(0));
    assert_eq!(eastern_seconds(-14_401), Some(u64::MAX));
    assert_eq!(eastern_seconds(8_210_266_862_399), Some(8_210_266_876_799));
    assert_eq!(eastern_seconds(8_210_266_862_400), None);
    assert_eq!(eastern_seconds(i64::MAX), None);
}

#[test]
fn remaining_time() {
    assert_eq!(time_remaining(Some(100), 40), 60);
    assert_eq!(time_remaining(Some(100), 100), 0);
    assert_eq!(time_remaining(Some(100), 140), 0);
    assert_eq!(time_remaining(None, 140), UNKNOWN_END_REMAINING);
    assert_eq!(effective_time_remaining(0), 60);
    assert_eq!(effective_time_remaining(7), 7);
    assert_eq!(period_timestamp(Some(10_000)), 6_400);
    assert_eq!(period_timestamp(Some(100)), 0);
    assert_eq!(period_timestamp(None), 0);
}

#[test]
fn closed_check_every_interval() {
    let mut c = ClosedCheckCounter::new();
    for _ in 0..CLOSED_CHECK_INTERVAL - 1 {
        assert!(!c.tick(100));
    }
    assert!(c.tick(100));
    assert!(!c.tick(100));
    assert!(c.tick(0));
    assert!(!c.tick(5));
}

#[test]
fn market_status_outcomes() {
    assert_eq!(on_market_status(Some(true), 0), StatusOutcome::Exit);
    assert_eq!(on_market_status(Some(true), 50), StatusOutcome::Exit);
    assert_eq!(on_market_status(Some(false), 0), StatusOutcome::PastEndStillOpen);
    assert_eq!(on_market_status(Some(false), 9), StatusOutcome::Open);
    assert_eq!(on_market_status(None, 0), StatusOutcome::Unknown);
}

#[test]
fn levels_for_binary_states() {
    let q = Asks { ask0: 300_000, ask1: 700_000, ask2: 0 };
    let s = TrailingState::WaitingFirst { low0: 250_000, high0: 320_000, low1: 650_000, high1: 750_000 };
    assert_eq!(
        trail_levels(&s, &q, 30_000, MarketKind::Binary),
        TrailLevels { low0: 250_000, low1: 650_000, low2: 0, trigger0: 280_000, trigger1: 680_000, trigger2: 0 }
    );
    let s = TrailingState::FirstBought { first_is_token0: true, first_price: 280_000, shares: Shares::Count(1), opposite_lowest: 690_000 };
    assert_eq!(
        trail_levels(&s, &q, 30_000, MarketKind::Binary),
        TrailLevels { low0: 690_000, low1: 690_000, low2: 0, trigger0: 720_000, trigger1: 720_000, trigger2: 0 }
    );
    assert_eq!(
        trail_levels(&TrailingState::Done, &q, 30_000, MarketKind::Binary),
        TrailLevels { low0: 300_000, low1: 700_000, low2: 0, trigger0: 330_000, trigger1: 730_000, trigger2: 0 }
    );
}

#[test]
fn levels_for_three_way_states() {
    let q = Asks { ask0: 300_000, ask1: 400_000, ask2: 300_000 };
    let s = TrailingState::FirstBought3 {
        first_index: 0,
        first_price: 1,
        shares: Shares::Count(1),
        rem1_low: 380_000,
        rem1_high: 420_000,
        rem2_low: 250_000,
        rem2_high: 310_000,
    };
    assert_eq!(
        trail_levels(&s, &q, 10_000, MarketKind::ThreeWay),
        TrailLevels { low0: 380_000, low1: 250_000, low2: 0, trigger0: 390_000, trigger1: 260_000, trigger2: 0 }
    );
    assert_eq!(
        trail_levels(&TrailingState::Done, &q, 1i128 << 120, MarketKind::ThreeWay),
        TrailLevels {
            low0: 300_000,
            low1: 400_000,
            low2: 300_000,
            trigger0: 300_000 + (1i128 << 120),
            trigger1: 400_000 + (1i128 << 120),
            trigger2: 300_000 + (1i128 << 120),
        }
    );
}

fn read_back(t: &str) -> u64 {
    let (mut total, mut current) = (0u64, 0u64);
    for c in t.chars() {
        match c {
            '0'..='9' => current = current * 10 + (c as u64 - '0' as u64),
            'h' => { total += current * 3600; current = 0; }
            'm' => { total += current * 60; current = 0; }
            's' => { total += current; current = 0; }
            _ => {}
        }
    }
    total
}

#[test]
fn hms_text_reads_back() {
    for secs in [0u64, 1, 59, 60, 61, 3599, 3600, 3725, 86_399, 90_061, 1_000_000] {
        assert_eq!(read_back(&format_remaining_hms(secs)), secs);
    }
}

#[test]
fn zone_less_end_date_is_the_minus_four_hours_instant() {
    for s in ["2026-03-05T19:00:00", "2024-02-29T23:30:15", "1999-12-31T00:00:00"] {
        let with_offset = format!("{}-04:00", s);
        assert!(parse_end_date_iso(s).is_some());
        assert_eq!(parse_end_date_iso(s), parse_end_date_iso(&with_offset));
    }
}
