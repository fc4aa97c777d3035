use sports_trailing::market::{choose_outcome_names, market_kind, outcome_names_fit, slug_is_set};
use sports_trailing::price::{ask_price, bid_price, token_quote, PriceDecimal, TokenQuote};
use sports_trailing::sizing::{first_buy_units, Shares, MAX_BASE_SHARES};
use sports_trailing::trailing::{side_of, MarketKind, Side, TrailingConfig, DEFAULT_TRAILING_STOP};

fn names(v: &[&str]) -> Vec<String> {
    v.iter().map(|s| s.to_string()).collect()
}

fn dec(mantissa: i128, scale: u32) -> PriceDecimal {
    PriceDecimal { mantissa, scale }
}

#[test]
fn kinds_of_markets() {
    assert_eq!(market_kind(2), Some(MarketKind::Binary));
    assert_eq!(market_kind(3), Some(MarketKind::ThreeWay));
    assert_eq!(market_kind(1), None);
    assert_eq!(market_kind(4), None);
    assert_eq!(market_kind(0), None);
}

#[test]
fn slug_must_be_set() {
    assert!(slug_is_set(&Some("nba-lal-bos".to_string())));
    assert!(!slug_is_set(&Some(String::new())));
    assert!(!slug_is_set(&None));
}

#[test]
fn outcome_names_from_market_record() {
    let tokens = names(&["Over", "Under"]);
    assert_eq!(
        choose_outcome_names(Some("[\"Over 220.5\", \"Under 220.5\"]"), &tokens),
        names(&["Over 220.5", "Under 220.5"])
    );
}

#[test]
fn outcome_names_fall_back_to_token_labels() {
    let tokens = names(&["Yes", "No"]);
    assert_eq!(choose_outcome_names(None, &tokens), tokens);
    assert_eq!(choose_outcome_names(Some("not json"), &tokens), tokens);
    assert_eq!(choose_outcome_names(Some("[\"A\"]"), &tokens), tokens);
    assert_eq!(choose_outcome_names(Some("[\"A\", \"\"]"), &tokens), tokens);
    assert_eq!(choose_outcome_names(Some("[1, 2]"), &tokens), tokens);
    let three = names(&["A", "B", "Draw"]);
    assert_eq!(
        choose_outcome_names(Some("[\"Team A\", \"Team B\", \"Tie\"]"), &three),
        names(&["Team A", "Team B", "Tie"])
    );
}

#[test]
fn decimals_to_millionths() {
    assert_eq!(dec(45, 2).to_micros(), 450_000);
    assert_eq!(dec(5, 0).to_micros(), 5_000_000);
    assert_eq!(dec(12345678, 8).to_micros(), 123_456);
    assert_eq!(dec(1, 28).to_micros(), 0);
    assert_eq!(dec(-45, 2).to_micros(), -450_000);
    assert_eq!(dec(-12345678, 8).to_micros(), -123_456);
    assert_eq!(
        dec(79228162514264337593543950335, 0).to_micros(),
        79_228_162_514_264_337_593_543_950_335_000_000
    );
    assert_eq!(
        dec(-79228162514264337593543950335, 0).to_micros(),
        -79_228_162_514_264_337_593_543_950_335_000_000
    );
}

#[test]
fn bid_and_ask_fallbacks() {
    let q = |bid, ask| TokenQuote { token_id: "t".to_string(), bid, ask };
    assert_eq!(bid_price(&q(Some(dec(41, 2)), Some(dec(43, 2)))), 410_000);
    assert_eq!(ask_price(&q(Some(dec(41, 2)), Some(dec(43, 2)))), 430_000);
    assert_eq!(ask_price(&q(Some(dec(41, 2)), None)), 410_000);
    assert_eq!(bid_price(&q(None, Some(dec(43, 2)))), 0);
    assert_eq!(ask_price(&q(None, None)), 0);
    assert_eq!(ask_price(&q(Some(dec(41, 2)), Some(dec(-1, 2)))), -10_000);
}

#[test]
fn quote_needs_a_side() {
    assert!(token_quote("t".to_string(), None, None).is_none());
    let q = token_quote("t".to_string(), None, Some(dec(5, 1))).unwrap();
    assert_eq!(q.token_id, "t");
    assert_eq!(q.bid, None);
    assert_eq!(q.ask, Some(dec(5, 1)));
    assert!(token_quote("t".to_string(), Some(dec(5, 1)), None).is_some());
}

#[test]
fn first_buy_keeps_base_shares_when_they_cost_a_dollar() {
    assert_eq!(first_buy_units(10_000_000, 440_000), Shares::Count(10_000_000));
}

#[test]
fn first_buy_rises_to_one_dollar() {
    // 1 / 0.30 = 3.33.. shares, rounded up to 3.34.
    assert_eq!(first_buy_units(1_000_000, 300_000), Shares::Count(3_340_000));
    assert_eq!(first_buy_units(0, 1), Shares::Count(1_000_000_000_000));
    assert_eq!(first_buy_units(0, 1_000_000), Shares::Count(1_000_000));
    assert_eq!(first_buy_units(0, 79_228_162_514_264_337_593_543_950_335_000_000), Shares::Count(10_000));
}

#[test]
fn first_buy_rounds_shares_up_to_a_hundredth() {
    assert_eq!(first_buy_units(5_001_000, 400_000), Shares::Count(5_010_000));
    assert_eq!(first_buy_units(MAX_BASE_SHARES, 400_000), Shares::Count(MAX_BASE_SHARES));
}

#[test]
fn first_buy_at_zero_or_negative_price() {
    assert_eq!(first_buy_units(5_001_000, 0), Shares::Unbounded);
    assert_eq!(first_buy_units(5_001_000, -400_000), Shares::Count(5_010_000));
    assert_eq!(first_buy_units(0, -1), Shares::Count(0));
}

#[test]
fn first_buy_grows_with_base_shares() {
    let mut last = 0;
    for base in [0u64, 1, 9_999, 10_000, 3_330_000, 3_340_001, 50_000_000] {
        let Shares::Count(u) = first_buy_units(base, 300_000) else { panic!("bounded") };
        assert!(u >= last);
        last = u;
    }
}

#[test]
fn names_fit_one_per_token() {
    assert!(outcome_names_fit(&names(&["A", "B"]), 2));
    assert!(!outcome_names_fit(&names(&["A", "B"]), 3));
    assert!(!outcome_names_fit(&names(&["A", ""]), 2));
    assert!(outcome_names_fit(&names(&[]), 0));
}

#[test]
fn config_defaults() {
    let c = TrailingConfig::new(None, None, 5_000_000, true, MarketKind::Binary).unwrap();
    assert_eq!(c.trailing_stop, DEFAULT_TRAILING_STOP);
    assert_eq!(c.base_shares, 10_000_000);
    assert!(c.continuous);
    let c = TrailingConfig::new(Some(10_000), Some(7_000_000), 5_000_000, false, MarketKind::ThreeWay).unwrap();
    assert_eq!(c.trailing_stop, 10_000);
    assert_eq!(c.base_shares, 7_000_000);
    assert_eq!(c.kind, MarketKind::ThreeWay);
    assert!(TrailingConfig::new(None, Some(u64::MAX), 0, false, MarketKind::Binary).is_none());
    assert!(TrailingConfig::new(None, None, u64::MAX / 2, false, MarketKind::Binary).is_none());
    assert!(TrailingConfig::new(Some(i128::MAX), None, 0, false, MarketKind::Binary).is_none());
    assert!(TrailingConfig::new(Some(-5), None, 0, false, MarketKind::Binary).is_some());
}

#[test]
fn sides_of_tokens() {
    assert_eq!(side_of(0), Side::Up);
    assert_eq!(side_of(1), Side::Down);
    assert_eq!(side_of(2), Side::Down);
}
