use chrono::{FixedOffset, NaiveDateTime, TimeZone};
use sports_trailing::end_date::{parse_end_date_iso, trim_text};

#[test]
fn trim_agrees_with_std_trim() {
    for u in 0u32..0x3100 {
        if let Some(c) = char::from_u32(u) {
            let s = format!("{c}{c}a{c}b{c}");
            assert_eq!(trim_text(&s), s.trim(), "code point {:x}", u);
        }
    }
    assert_eq!(trim_text("\u{feff}x"), "\u{feff}x".trim());
}

fn chrono_eastern(s: &str, fmt: &str) -> Option<u64> {
    let naive = NaiveDateTime::parse_from_str(s, fmt).ok()?;
    let offset = FixedOffset::east_opt(-4 * 3600)?;
    let dt = offset.from_local_datetime(&naive).single()?;
    Some(dt.timestamp() as u64)
}

#[test]
fn eastern_time_agrees_with_chrono() {
    for s in [
        "2026-03-05T19:00:00",
        "1970-01-01T00:00:00",
        "1969-12-31T20:00:00",
        "+262142-12-31T19:59:59",
        "+262142-12-31T20:00:00",
        "+262142-12-31T23:59:59",
        "-262143-01-01T00:00:00",
    ] {
        assert_eq!(parse_end_date_iso(s), chrono_eastern(s, "%Y-%m-%dT%H:%M:%S"), "{}", s);
    }
}
