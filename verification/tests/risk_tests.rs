//! Risk-engine and admission tests, with probabilities derived from the
//! usual Black-Scholes terms in plain float arithmetic.

use btc_options_api::admission::AdmissionController;
use btc_options_api::contract::Contract;
use btc_options_api::errors::ApiError;
use btc_options_api::risk_manager::RiskManager;
use btc_options_api::side::OptionSide;

fn normal_cdf(x: f64) -> f64 {
    let abs_x = x.abs();
    let k = 1.0 / (1.0 + 0.2316419 * abs_x);
    let a1 = 0.319381530;
    let a2 = -0.356563782;
    let a3 = 1.781477937;
    let a4 = -1.821255978;
    let a5 = 1.330274429;
    let norm_pdf = (1.0 / (2.0 * std::f64::consts::PI).sqrt()) * (-0.5 * x * x).exp();
    let poly = k * (a1 + k * (a2 + k * (a3 + k * (a4 + k * a5))));
    if x >= 0.0 {
        1.0 - norm_pdf * poly
    } else {
        norm_pdf * poly
    }
}

fn d2(s: f64, k: f64, r: f64, sigma: f64, t: f64) -> f64 {
    let d1 = ((s / k).ln() + (r + sigma * sigma / 2.0) * t) / (sigma * t.sqrt());
    d1 - sigma * t.sqrt()
}

fn prob_put_itm_e6(s: f64, k: f64, r: f64, sigma: f64, t: f64) -> u64 {
    (normal_cdf(-d2(s, k, r, sigma, t)) * 1_000_000.0).round() as u64
}

#[test]
fn test_put_risk_calculation() {
    let risk_manager = RiskManager::new(1_200_000); // 20% margin

    // Put, strike $100000, premium $1000, quantity 1 BTC, spot $110000,
    // vol 0.5, 30 days, rate 5%.
    let prob = prob_put_itm_e6(110000.0, 100000.0, 0.05, 0.5, 0.0833);
    assert!(prob <= 1_000_000);
    let risk = risk_manager.calculate_position_risk(
        &OptionSide::Put,
        10_000_000, // strike, cents
        100_000,    // premium, cents
        100_000_000, // quantity, sats
        11_000_000, // spot, cents
        prob,
    );

    assert_eq!(risk.max_loss_cents, 9_900_000); // $99000: strike - premium
    assert!(risk.expected_loss_cents < risk.max_loss_cents);
    assert_eq!(risk.margin_required_cents, 11_880_000); // $99000 * 1.2
}

#[test]
fn test_call_margin_is_scaled_max_loss() {
    let risk_manager = RiskManager::new(1_200_000);
    // Call, strike $50000, premium $2000, quantity 2 BTC, spot $60000.
    let risk = risk_manager.calculate_position_risk(
        &OptionSide::Call,
        5_000_000,
        200_000,
        200_000_000,
        6_000_000,
        250_000,
    );
    // Worst case: 3*spot - strike - premium = $128000, on 2 BTC.
    assert_eq!(risk.max_loss_cents, 25_600_000);
    assert_eq!(risk.margin_required_cents, 25_600_000 * 12 / 10);
}

#[test]
fn test_put_max_loss_monotone_in_strike() {
    let rm = RiskManager::new(1_000_000);
    let mut last = i64::MIN;
    for strike in [1_000_000u64, 2_000_000, 5_000_000, 9_999_999] {
        let r = rm.calculate_position_risk(&OptionSide::Put, strike, 100_000, 150_000_000, 5_000_000, 0);
        assert!(r.max_loss_cents >= last);
        last = r.max_loss_cents;
    }
}

#[test]
fn test_max_quantity_zero_cases() {
    let rm = RiskManager::new(1_200_000);
    // No available collateral.
    let q = rm.calculate_max_quantity(&OptionSide::Put, 10_000_000, 100_000, 11_000_000, 0, 0, 0);
    assert_eq!(q, 0);
    // Negative available collateral.
    let q = rm.calculate_max_quantity(&OptionSide::Put, 10_000_000, 100_000, 11_000_000, 0, -5, 0);
    assert_eq!(q, 0);
    // Zero unit margin: a call whose premium covers the capped move.
    let q = rm.calculate_max_quantity(&OptionSide::Call, 9_000_000, 100_000, 2_000_000, 0, 1_000_000_000, 0);
    assert_eq!(q, 0);
}

#[test]
fn test_max_quantity_hard_cap() {
    let rm = RiskManager::new(1_200_000);
    // Tiny unit margin, huge collateral: capped at 1000 BTC.
    let q = rm.calculate_max_quantity(
        &OptionSide::Put,
        200_000, // strike $2000
        100_000, // premium $1000
        5_000_000,
        0,
        9_000_000_000_000_000, // $90 trillion of collateral
        0,
    );
    assert_eq!(q, 100_000_000_000);
}

#[test]
fn test_max_quantity_exact_division() {
    let rm = RiskManager::new(1_200_000);
    // Unit margin: (10000000 - 100000) * 1.2 = 11_880_000 cents per BTC.
    // Available $237600 = 23_760_000 cents backs exactly 2 BTC.
    let q = rm.calculate_max_quantity(
        &OptionSide::Put,
        10_000_000,
        100_000,
        11_000_000,
        0,
        23_760_000,
        0,
    );
    assert_eq!(q, 200_000_000);
}

#[test]
fn test_portfolio_risk_skips_expired() {
    let rm = RiskManager::new(1_200_000);
    let now = 1_700_000_000i64;
    let live = Contract {
        side: OptionSide::Put,
        strike_price_cents: 10_000_000,
        quantity_sats: 100_000_000,
        expires: now + 86400,
        premium_cents: 100_000,
    };
    let expired = Contract { expires: now - 1, ..live };
    let boundary = Contract { expires: now, ..live };
    let book = vec![live, expired, boundary];
    let total = rm.calculate_portfolio_risk(&book, 11_000_000, now);
    // Only the live contract counts: $99000 * 1.2.
    assert_eq!(total, 11_880_000);
}

#[test]
fn test_admission_rejects_past_expiry() {
    let ac = AdmissionController::new(1_200_000, 500_000);
    let now = 1_700_000_000i64;
    let candidate = Contract {
        side: OptionSide::Put,
        strike_price_cents: 10_000_000,
        quantity_sats: 100_000_000,
        expires: now,
        premium_cents: 100_000,
    };
    let r = ac.approve(&candidate, now, 0, 11_000_000, &vec![]);
    match r {
        Err(ApiError::ValidationError(m)) => {
            assert_eq!(m, "Contract expiration date must be in the future.");
        }
        _ => panic!("expected a validation rejection"),
    }
}

#[test]
fn test_admission_rejects_oversized_quantity() {
    let ac = AdmissionController::new(1_200_000, 500_000);
    let now = 1_700_000_000i64;
    let candidate = Contract {
        side: OptionSide::Put,
        strike_price_cents: 10_000_000,
        quantity_sats: 100_000_000,
        expires: now + 86400,
        premium_cents: 100_000,
    };
    // An empty pool backs nothing: max quantity is 0, so 1 BTC is rejected.
    let r = ac.approve(&candidate, now, 0, 11_000_000, &vec![]);
    match r {
        Err(ApiError::ValidationError(m)) => {
            assert_eq!(
                m,
                "Requested quantity (1.00000000) exceeds maximum allowed quantity \
                 (0.00000000). Available collateral: $0.00, Existing risk exposure: $0.00, \
                 Total collateral pool: $0.00"
            );
        }
        _ => panic!("expected a validation rejection"),
    }
}

#[test]
fn test_admission_approves_within_collateral() {
    let ac = AdmissionController::new(1_200_000, 500_000);
    let now = 1_700_000_000i64;
    let candidate = Contract {
        side: OptionSide::Put,
        strike_price_cents: 10_000_000,
        quantity_sats: 100_000_000,
        expires: now + 86400,
        premium_cents: 100_000,
    };
    // Pool: 10 BTC at $110000 spot, collateral rate 0.5 -> $550000 total.
    let r = ac.approve(&candidate, now, 1_000_000_000, 11_000_000, &vec![]);
    let metrics = r.expect("candidate within collateral should be approved");
    assert_eq!(metrics.total_risk_exposure_cents, 0);
    assert_eq!(metrics.available_collateral_cents, 55_000_000);
    assert_eq!(metrics.position_risk_cents, 11_880_000);
    // $550000 / $118800 per BTC = 4.62... BTC
    assert_eq!(metrics.max_quantity_sats, 55_000_000u64 * 100_000_000 / 11_880_000);
}

#[test]
fn test_admission_counts_existing_book() {
    let ac = AdmissionController::new(1_200_000, 500_000);
    let now = 1_700_000_000i64;
    let booked = Contract {
        side: OptionSide::Put,
        strike_price_cents: 10_000_000,
        quantity_sats: 300_000_000,
        expires: now + 86400,
        premium_cents: 100_000,
    };
    let candidate = Contract { quantity_sats: 100_000_000, ..booked };
    let r_empty = ac
        .approve(&candidate, now, 1_000_000_000, 11_000_000, &vec![])
        .expect("approved against an empty book");
    let r_loaded = ac
        .approve(&candidate, now, 1_000_000_000, 11_000_000, &vec![booked])
        .expect("approved against a loaded book");
    // 3 BTC booked at $118800 margin per BTC reduce the available pool.
    assert_eq!(r_loaded.total_risk_exposure_cents, 35_640_000);
    assert_eq!(
        r_loaded.available_collateral_cents,
        r_empty.available_collateral_cents - 35_640_000
    );
    assert!(r_loaded.max_quantity_sats < r_empty.max_quantity_sats);
}
