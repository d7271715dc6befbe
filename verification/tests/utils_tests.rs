//! Formatting, parsing and error-text tests.

use btc_options_api::errors::{ApiError, MutinyWalletError};
use btc_options_api::text::{parse_i64, parse_u64, str_eq, trim_ascii, u64_to_string};
use btc_options_api::utils::{
    duration_to_seconds, format_btc, format_cents, format_expires_timestamp,
    generate_strike_ladder,
};

#[test]
fn test_format_btc() {
    assert_eq!(format_btc(12_345_678), "0.12345678");
    assert_eq!(format_btc(100_000_000), "1.00000000");
    assert_eq!(format_btc(1), "0.00000001");
    assert_eq!(format_btc(0), "0.00000000");
    assert_eq!(format_btc(123_456_789_012), "1234.56789012");
}

#[test]
fn test_format_cents() {
    assert_eq!(format_cents(12_345), "123.45");
    assert_eq!(format_cents(0), "0.00");
    assert_eq!(format_cents(5), "0.05");
    assert_eq!(format_cents(-5), "-0.05");
    assert_eq!(format_cents(-12_345), "-123.45");
}

#[test]
fn test_format_expires_timestamp_expired() {
    let now = 1_700_000_000i64;
    assert_eq!(format_expires_timestamp(now - 100, now), "EXPIRED");
}

#[test]
fn test_format_expires_timestamp_minutes() {
    let now = 1_700_000_000i64;
    assert_eq!(format_expires_timestamp(now + 1800, now), "30m");
}

#[test]
fn test_format_expires_timestamp_hours() {
    let now = 1_700_000_000i64;
    assert_eq!(format_expires_timestamp(now + 7200, now), "2h");
}

#[test]
fn test_format_expires_timestamp_days() {
    let now = 1_700_000_000i64;
    assert_eq!(format_expires_timestamp(now + 172_800, now), "2d");
}

#[test]
fn test_format_expires_timestamp() {
    let now = 1_700_000_000i64;
    assert_eq!(format_expires_timestamp(now + 86_400, now), "1d");
    assert_eq!(format_expires_timestamp(now - 100, now), "EXPIRED");
}

#[test]
fn test_duration_to_seconds() {
    assert_eq!(duration_to_seconds("30m"), 1800);
    assert_eq!(duration_to_seconds("2h"), 7200);
    assert_eq!(duration_to_seconds("7d"), 604_800);
    assert_eq!(duration_to_seconds(" 1d "), 86_400);
    assert_eq!(duration_to_seconds("invalid"), 0);
    assert_eq!(duration_to_seconds("30"), 0);
    assert_eq!(duration_to_seconds("5x"), 0);
}

#[test]
fn test_parse_u64() {
    assert_eq!(parse_u64("0"), Some(0));
    assert_eq!(parse_u64("50000"), Some(50_000));
    assert_eq!(parse_u64("18446744073709551615"), Some(u64::MAX));
    assert_eq!(parse_u64("18446744073709551616"), None);
    assert_eq!(parse_u64(""), None);
    assert_eq!(parse_u64("12a"), None);
    assert_eq!(parse_u64("-1"), None);
}

#[test]
fn test_parse_i64() {
    assert_eq!(parse_i64("42"), Some(42));
    assert_eq!(parse_i64("-42"), Some(-42));
    assert_eq!(parse_i64("9223372036854775807"), Some(i64::MAX));
    assert_eq!(parse_i64("9223372036854775808"), None);
    assert_eq!(parse_i64("-9223372036854775808"), Some(i64::MIN));
    assert_eq!(parse_i64("-9223372036854775809"), None);
    assert_eq!(parse_i64("-"), None);
    assert_eq!(parse_i64(""), None);
}

#[test]
fn test_u64_to_string() {
    assert_eq!(u64_to_string(0), "0");
    assert_eq!(u64_to_string(7), "7");
    assert_eq!(u64_to_string(105), "105");
    assert_eq!(u64_to_string(u64::MAX), "18446744073709551615");
}

#[test]
fn test_trim_and_eq() {
    assert_eq!(trim_ascii("  30m \t"), "30m");
    assert_eq!(trim_ascii(""), "");
    assert_eq!(trim_ascii(" \n "), "");
    assert!(str_eq("abc", "abc"));
    assert!(!str_eq("abc", "abd"));
    assert!(!str_eq("abc", "ab"));
}

#[test]
fn test_api_error_display() {
    let err = ApiError::ValidationError("Test error".to_string());
    assert_eq!(err.message(), "Validation error: Test error");

    let err2 = ApiError::DatabaseError("DB issue".to_string());
    assert_eq!(err2.message(), "Database error: DB issue");

    let err3 = ApiError::ExternalApiError("API failed".to_string());
    assert_eq!(err3.message(), "External API error: API failed");
}

#[test]
fn test_wallet_error_display() {
    let err = MutinyWalletError::NetworkError("timeout".to_string());
    assert_eq!(err.message(), "Network error: timeout");
    let err = MutinyWalletError::ParseError("bad json".to_string());
    assert_eq!(err.message(), "Parse error: bad json");
    let err = MutinyWalletError::ApiError("status 500".to_string());
    assert_eq!(err.message(), "API error: status 500");
}

#[test]
fn test_generate_strike_ladder() {
    // Spot $105,432.10 centers the ladder on $105,000.
    let ladder = generate_strike_ladder(10_543_210);
    assert_eq!(ladder.len(), 11);
    assert_eq!(ladder[0], 10_000_000);
    assert_eq!(ladder[10], 11_000_000);
    assert!(ladder.windows(2).all(|w| w[1] == w[0] + 100_000));
    // A low spot keeps only the positive strikes.
    let low = generate_strike_ladder(200_000);
    assert_eq!(low.len(), 7);
    assert_eq!(low[0], 100_000);
    assert_eq!(low[6], 700_000);
}
