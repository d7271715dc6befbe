//! Volatility-surface tests: refresh, lookups, nearest-expiry resolution,
//! and the keep-on-failure policy.

use btc_options_api::instrument::{parse_expiry_to_timestamp, parse_instrument_name};
use btc_options_api::iv_oracle::{IvOracle, SummaryRow};
use btc_options_api::side::OptionSide;

fn row(name: &str, pct_e6: u64) -> SummaryRow {
    SummaryRow { instrument_name: name.to_string(), mark_iv_pct_e6: pct_e6 }
}

fn oracle() -> IvOracle {
    IvOracle::new("https://www.deribit.com/api/v2".to_string())
}

#[test]
fn test_cache_starts_empty() {
    let o = oracle();
    assert!(o.is_cache_empty(), "Cache should be empty on initialization");
    assert_eq!(o.get_cache_size(), 0, "Cache size should be 0 initially");
    assert!(o.get_iv("C", 5_000_000_00, "1d").is_none(), "Should return None before fetching data");
    assert!(o.get_expiry_timestamp("29DEC23").is_none());
    assert!(o.find_nearest_expiry(0).is_none());
}

#[test]
fn test_refresh_populates_surface() {
    // After a refresh with ["BTC-29DEC23-50000-C" -> 70.0%], the exact
    // lookup returns 0.70; a strike not present reports not-found.
    let mut o = oracle();
    let r = o.fetch_and_update_iv(Ok(vec![row("BTC-29DEC23-50000-C", 70_000_000)]));
    assert!(r.is_ok());
    assert!(!o.is_cache_empty());
    assert_eq!(o.get_cache_size(), 1);
    assert_eq!(o.get_iv_by_exact_expiry("C", 5_000_000, "29DEC23"), Some(700_000));
    assert_eq!(o.get_iv_by_exact_expiry("C", 5_100_000, "29DEC23"), None);
    assert_eq!(o.get_iv_by_exact_expiry("P", 5_000_000, "29DEC23"), None);
    assert_eq!(o.get_iv_by_exact_expiry("C", 5_000_000, "30DEC23"), None);
}

#[test]
fn test_refresh_keeps_last_value_per_key() {
    let mut o = oracle();
    let r = o.fetch_and_update_iv(Ok(vec![
        row("BTC-29DEC23-50000-C", 60_000_000),
        row("BTC-29DEC23-50000-C", 70_000_000),
    ]));
    assert!(r.is_ok());
    assert_eq!(o.get_cache_size(), 1);
    assert_eq!(o.get_iv_by_exact_expiry("C", 5_000_000, "29DEC23"), Some(700_000));
}

#[test]
fn test_refresh_skips_untracked_instruments() {
    let mut o = oracle();
    let r = o.fetch_and_update_iv(Ok(vec![
        row("BTC-PERPETUAL", 10_000_000),
        row("ETH-29DEC23-2000-C", 80_000_000),
        row("INVALID-NAME", 5_000_000),
        row("BTC-29DEC23-50000-P", 65_500_000),
    ]));
    assert!(r.is_ok());
    assert_eq!(o.get_cache_size(), 1);
    assert_eq!(o.get_iv_by_exact_expiry("P", 5_000_000, "29DEC23"), Some(655_000));
}

#[test]
fn test_nearest_expiry_resolution() {
    // Expiries one day apart; a query 10 seconds past the first resolves to
    // the first.
    let mut o = oracle();
    o.fetch_and_update_iv(Ok(vec![
        row("BTC-29DEC23-50000-C", 70_000_000),
        row("BTC-30DEC23-50000-C", 71_000_000),
    ]))
    .unwrap();
    let t = o.get_expiry_timestamp("29DEC23").expect("expiry indexed");
    assert_eq!(o.get_expiry_timestamp("30DEC23"), Some(t + 86_400_000));
    assert_eq!(o.find_nearest_expiry(t + 10_000).as_deref(), Some("29DEC23"));
    assert_eq!(o.get_iv_by_timestamp("C", 5_000_000, t + 10_000), Some(700_000));
    assert_eq!(o.get_iv_by_timestamp("C", 5_000_000, t + 80_000_000), Some(710_000));
}

#[test]
fn test_get_iv_parses_timestamp_strings() {
    let mut o = oracle();
    o.fetch_and_update_iv(Ok(vec![row("BTC-29DEC23-50000-C", 70_000_000)])).unwrap();
    let t = o.get_expiry_timestamp("29DEC23").unwrap();
    // A numeric expire string is a millisecond timestamp.
    assert_eq!(o.get_iv("C", 5_000_000, &t.to_string()), Some(700_000));
    // A non-numeric string falls back to a strike-and-side search.
    assert_eq!(o.get_iv("C", 5_000_000, "1d"), Some(700_000));
    assert_eq!(o.get_iv("P", 5_000_000, "1d"), None);
}

#[test]
fn test_failed_refresh_keeps_snapshot() {
    // A failed refresh must not clear an already-populated surface.
    let mut o = oracle();
    o.fetch_and_update_iv(Ok(vec![row("BTC-29DEC23-50000-C", 70_000_000)])).unwrap();
    let before = o.get_iv_by_exact_expiry("C", 5_000_000, "29DEC23");
    let r = o.fetch_and_update_iv(Err("connection reset".to_string()));
    assert!(r.is_err(), "Should fail when the upstream poll failed");
    assert!(!o.is_cache_empty());
    assert_eq!(o.get_iv_by_exact_expiry("C", 5_000_000, "29DEC23"), before);
    assert_eq!(before, Some(700_000));
}

#[test]
fn test_failed_refresh_on_cold_cache() {
    let mut o = oracle();
    let r = o.fetch_and_update_iv(Err("no route to host".to_string()));
    assert!(r.is_err(), "Should fail with invalid URL");
    assert!(o.is_cache_empty());
    assert_eq!(o.get_cache_size(), 0);
    assert!(o.get_iv("C", 5_000_000, "1d").is_none());
}

#[test]
fn test_parse_instrument_name() {
    assert_eq!(
        parse_instrument_name("BTC-29DEC23-50000-C"),
        Some(("29DEC23".to_string(), 5_000_000, OptionSide::Call))
    );
    assert_eq!(
        parse_instrument_name("BTC-29DEC23-50000-P"),
        Some(("29DEC23".to_string(), 5_000_000, OptionSide::Put))
    );
    assert_eq!(
        parse_instrument_name("BTC-1JAN24-45000-C"),
        Some(("1JAN24".to_string(), 4_500_000, OptionSide::Call))
    );
    assert_eq!(parse_instrument_name("BTC-PERPETUAL"), None);
    assert_eq!(parse_instrument_name("ETH-29DEC23-2000-C"), None);
    assert_eq!(parse_instrument_name("INVALID-NAME"), None);
    assert_eq!(parse_instrument_name("BTC-29DEC23-0-C"), None);
    assert_eq!(parse_instrument_name("BTC-29DEC23-50000-X"), None);
}

#[test]
fn test_parse_expiry_to_timestamp() {
    // 08:00 UTC of the named date, in milliseconds.
    assert_eq!(parse_expiry_to_timestamp("29DEC23"), Some(1_703_836_800_000));
    assert_eq!(parse_expiry_to_timestamp("6SEP25"), Some(1_757_145_600_000));
    assert_eq!(parse_expiry_to_timestamp("29FEB24"), Some(1_709_193_600_000));
    assert_eq!(parse_expiry_to_timestamp("29FEB23"), None); // not a leap year
    assert_eq!(parse_expiry_to_timestamp("31APR24"), None);
    assert_eq!(parse_expiry_to_timestamp("0JAN24"), None);
    assert_eq!(parse_expiry_to_timestamp("XYZ"), None);
    assert_eq!(parse_expiry_to_timestamp("29DEC2023"), None);
}

#[test]
fn test_expiry_listings() {
    let mut o = oracle();
    o.fetch_and_update_iv(Ok(vec![
        row("BTC-30DEC23-50000-C", 71_000_000),
        row("BTC-29DEC23-50000-C", 70_000_000),
        row("BTC-29DEC23-52000-C", 72_000_000),
    ]))
    .unwrap();
    let mut labels = o.get_cached_expiries();
    labels.sort();
    assert_eq!(labels, vec!["29DEC23".to_string(), "30DEC23".to_string()]);

    let pairs = o.get_expiry_timestamps();
    assert_eq!(pairs.len(), 2);

    let sorted = o.get_sorted_expiries();
    assert_eq!(sorted.len(), 2);
    assert!(sorted[0].1 <= sorted[1].1);
    assert_eq!(sorted[0].0, "29DEC23");
    assert_eq!(sorted[1].0, "30DEC23");
}
