//! The risk engine: pure position-risk metrics, portfolio risk, and the
//! largest quantity a given amount of collateral can back.
//!
//! Money is in USD cents, quantities in satoshis, and probabilities and
//! multipliers in millionths. Worst-case losses follow the engine's fixed
//! scenarios: a put seller loses the strike less the premium when the
//! underlying goes to zero; a call seller's loss is capped at a move to three
//! times the current spot. Fixed-point products round toward zero.

use vstd::arithmetic::div_mod::{lemma_div_is_ordered, lemma_div_multiples_vanish,
    lemma_div_pos_is_pos, lemma_fundamental_div_mod, lemma_multiply_divide_le};
use vstd::arithmetic::mul::{lemma_mul_inequality, lemma_mul_is_associative,
    lemma_mul_is_commutative, lemma_mul_unary_negation, lemma_mul_upper_bound};
use vstd::prelude::*;

use crate::contract::{all_wf, Contract, MAX_BOOK_LEN, MAX_PRICE_CENTS, MAX_QUANTITY_SATS,
    MAX_RISK_MARGIN_E6};
use crate::side::OptionSide;
use crate::utils::{SATS_PER_BTC, UNIT_SCALE};

verus! {

/// Largest magnitude of a per-BTC loss figure: three times the largest spot.
pub const MAX_UNIT_DIFF_CENTS: u64 = 30_000_000_000;

/// Largest magnitude of a position's worst-case loss under the machine
/// limits: `MAX_UNIT_DIFF_CENTS * MAX_QUANTITY_SATS / SATS_PER_BTC`.
pub const MAX_LOSS_CENTS: u64 = 300_000_000_000_000;

/// Largest magnitude of a position's required margin under the machine
/// limits: `MAX_LOSS_CENTS * MAX_RISK_MARGIN_E6 / UNIT_SCALE`.
pub const MAX_POSITION_MARGIN_CENTS: u64 = 3_000_000_000_000_000;

/// Hard cap on the quantity of a single new position: 1000 BTC.
pub const POSITION_CAP_SATS: u64 = 100_000_000_000;

pub struct RiskManager {
    /// Safety multiplier on the worst-case loss, in millionths (1_200_000
    /// reserves a 20% buffer).
    pub risk_margin_e6: u64,
}

/// Risk metrics of one admission check, in the engine's fixed-point units.
#[derive(Debug, Clone, Copy, PartialEq, Eq, Structural)]
pub struct RiskMetrics {
    pub position_risk_cents: i64,
    pub total_risk_exposure_cents: i64,
    pub available_collateral_cents: i64,
    pub max_quantity_sats: u64,
}

/// Risk of a single position.
#[derive(Debug, Clone, Copy, PartialEq, Eq, Structural)]
pub struct PositionRisk {
    pub max_loss_cents: i64,
    pub expected_loss_cents: i64,
    pub margin_required_cents: i64,
}

/// `x` when positive, else 0.
pub open spec fn spec_max0(x: int) -> int {
    if x > 0 {
        x
    } else {
        0
    }
}

/// A per-BTC cent amount `a` (possibly negative) applied to a satoshi
/// quantity `q`, rounded toward zero.
pub open spec fn spec_scale_by_qty(a: int, q: int) -> int {
    if a >= 0 {
        (a * q) / (SATS_PER_BTC as int)
    } else {
        -(((-a) * q) / (SATS_PER_BTC as int))
    }
}

/// A loss `ml` loaded by the risk-margin multiplier `m` (millionths),
/// rounded toward zero.
pub open spec fn spec_apply_margin(ml: int, m: int) -> int {
    if ml >= 0 {
        (ml * m) / (UNIT_SCALE as int)
    } else {
        -(((-ml) * m) / (UNIT_SCALE as int))
    }
}

/// The worst-case loss of a written option. A put is worst at an underlying
/// of zero; a call's adverse scenario is capped at three times spot.
pub open spec fn spec_max_loss(
    side: OptionSide,
    strike: int,
    premium: int,
    spot: int,
    qty: int,
) -> int {
    match side {
        OptionSide::Put => spec_scale_by_qty(strike - premium, qty),
        OptionSide::Call => spec_scale_by_qty(spec_max0(3 * spot - strike) - premium, qty),
    }
}

/// The probability-weighted loss of a written option at the current
/// moneyness; `prob` is the in-the-money probability in millionths. The call
/// side carries a deliberate 1.5x loading for its unbounded upside risk.
pub open spec fn spec_expected_loss(
    side: OptionSide,
    strike: int,
    spot: int,
    qty: int,
    prob: int,
) -> int {
    match side {
        OptionSide::Put => (prob * spec_max0(strike - spot) * qty) / (
        (UNIT_SCALE * SATS_PER_BTC) as int),
        OptionSide::Call => (prob * spec_max0(spot - strike) * qty * 3) / (
        (2 * UNIT_SCALE * SATS_PER_BTC) as int),
    }
}

/// The margin a position reserves: its worst-case loss loaded by the
/// risk-margin multiplier.
pub open spec fn spec_margin_required(
    side: OptionSide,
    strike: int,
    premium: int,
    spot: int,
    qty: int,
    m: int,
) -> int {
    spec_apply_margin(spec_max_loss(side, strike, premium, spot, qty), m)
}

/// Sum of required margins over the not-yet-expired part of a book.
pub open spec fn spec_portfolio_risk(book: Seq<Contract>, spot: int, now: int, m: int) -> int
    decreases book.len(),
{
    if book.len() == 0 {
        0
    } else {
        let c = book.last();
        spec_portfolio_risk(book.drop_last(), spot, now, m) + if c.expires > now {
            spec_margin_required(
                c.side,
                c.strike_price_cents as int,
                c.premium_cents as int,
                spot,
                c.quantity_sats as int,
                m,
            )
        } else {
            0
        }
    }
}

/// The largest quantity `available` cents of collateral can back when one
/// whole BTC of the position reserves `unit_margin` cents, subject to the
/// hard position cap. Zero when no collateral is free or the position
/// reserves nothing.
pub open spec fn spec_max_quantity(unit_margin: int, available: int) -> int {
    if available <= 0 || unit_margin <= 0 {
        0
    } else if (available * SATS_PER_BTC) / unit_margin >= POSITION_CAP_SATS {
        POSITION_CAP_SATS as int
    } else {
        (available * SATS_PER_BTC) / unit_margin
    }
}

/// Fixed-point scaling of a signed cent amount by a satoshi quantity.
fn scale_by_qty(a: i64, q: u64) -> (r: i64)
    requires
        -(MAX_UNIT_DIFF_CENTS as int) <= a as int <= MAX_UNIT_DIFF_CENTS as int,
        q <= MAX_QUANTITY_SATS,
    ensures
        r == spec_scale_by_qty(a as int, q as int),
        -(MAX_LOSS_CENTS as int) <= r as int <= MAX_LOSS_CENTS as int,
{
    if a >= 0 {
        proof {
            lemma_mul_upper_bound(
                a as int,
                MAX_UNIT_DIFF_CENTS as int,
                q as int,
                MAX_QUANTITY_SATS as int,
            );
            lemma_mul_nonneg(a as int, q as int);
        }
        let p: u128 = (a as u128) * (q as u128);
        proof {
            lemma_multiply_divide_le(p as int, SATS_PER_BTC as int, MAX_LOSS_CENTS as int);
            lemma_div_pos_is_pos(p as int, SATS_PER_BTC as int);
        }
        let d = p / (SATS_PER_BTC as u128);
        d as i64
    } else {
        let na = (-a) as u64;
        proof {
            lemma_mul_upper_bound(
                na as int,
                MAX_UNIT_DIFF_CENTS as int,
                q as int,
                MAX_QUANTITY_SATS as int,
            );
            lemma_mul_nonneg(na as int, q as int);
        }
        let p: u128 = (na as u128) * (q as u128);
        proof {
            lemma_multiply_divide_le(p as int, SATS_PER_BTC as int, MAX_LOSS_CENTS as int);
            lemma_div_pos_is_pos(p as int, SATS_PER_BTC as int);
        }
        let d = p / (SATS_PER_BTC as u128);
        -(d as i64)
    }
}

/// Fixed-point loading of a signed loss by the risk-margin multiplier.
fn apply_margin(ml: i64, m: u64) -> (r: i64)
    requires
        -(MAX_LOSS_CENTS as int) <= ml as int <= MAX_LOSS_CENTS as int,
        m <= MAX_RISK_MARGIN_E6,
    ensures
        r == spec_apply_margin(ml as int, m as int),
        -(MAX_POSITION_MARGIN_CENTS as int) <= r as int <= MAX_POSITION_MARGIN_CENTS as int,
{
    if ml >= 0 {
        proof {
            lemma_mul_upper_bound(
                ml as int,
                MAX_LOSS_CENTS as int,
                m as int,
                MAX_RISK_MARGIN_E6 as int,
            );
            lemma_mul_nonneg(ml as int, m as int);
        }
        let p: u128 = (ml as u128) * (m as u128);
        proof {
            lemma_multiply_divide_le(
                p as int,
                UNIT_SCALE as int,
                MAX_POSITION_MARGIN_CENTS as int,
            );
            lemma_div_pos_is_pos(p as int, UNIT_SCALE as int);
        }
        let d = p / (UNIT_SCALE as u128);
        d as i64
    } else {
        let nm = (-ml) as u64;
        proof {
            lemma_mul_upper_bound(
                nm as int,
                MAX_LOSS_CENTS as int,
                m as int,
                MAX_RISK_MARGIN_E6 as int,
            );
            lemma_mul_nonneg(nm as int, m as int);
        }
        let p: u128 = (nm as u128) * (m as u128);
        proof {
            lemma_multiply_divide_le(
                p as int,
                UNIT_SCALE as int,
                MAX_POSITION_MARGIN_CENTS as int,
            );
            lemma_div_pos_is_pos(p as int, UNIT_SCALE as int);
        }
        let d = p / (UNIT_SCALE as u128);
        -(d as i64)
    }
}

impl RiskManager {
    pub open spec fn wf(self) -> bool {
        self.risk_margin_e6 <= MAX_RISK_MARGIN_E6
    }

    pub fn new(risk_margin_e6: u64) -> (r: Self)
        ensures
            r.risk_margin_e6 == risk_margin_e6,
    {
        Self { risk_margin_e6 }
    }

    /// Risk of a single option position.
    ///
    /// `prob_itm_e6` is the probability (millionths) that the option ends in
    /// the money; the caller's numeric layer derives it from the Black-
    /// Scholes `d2` term. It enters only the expected loss: the worst case
    /// and the margin do not depend on it.
    pub fn calculate_position_risk(
        &self,
        side: &OptionSide,
        strike_cents: u64,
        premium_cents: u64,
        quantity_sats: u64,
        spot_cents: u64,
        prob_itm_e6: u64,
    ) -> (r: PositionRisk)
        requires
            self.wf(),
            strike_cents <= MAX_PRICE_CENTS,
            premium_cents <= MAX_PRICE_CENTS,
            spot_cents <= MAX_PRICE_CENTS,
            quantity_sats <= MAX_QUANTITY_SATS,
            prob_itm_e6 <= UNIT_SCALE,
        ensures
            r.max_loss_cents == spec_max_loss(
                *side,
                strike_cents as int,
                premium_cents as int,
                spot_cents as int,
                quantity_sats as int,
            ),
            r.expected_loss_cents == spec_expected_loss(
                *side,
                strike_cents as int,
                spot_cents as int,
                quantity_sats as int,
                prob_itm_e6 as int,
            ),
            r.margin_required_cents == spec_margin_required(
                *side,
                strike_cents as int,
                premium_cents as int,
                spot_cents as int,
                quantity_sats as int,
                self.risk_margin_e6 as int,
            ),
            -(MAX_LOSS_CENTS as int) <= r.max_loss_cents as int <= MAX_LOSS_CENTS as int,
            -(MAX_POSITION_MARGIN_CENTS as int) <= r.margin_required_cents as int
                <= MAX_POSITION_MARGIN_CENTS as int,
    {
        match side {
            OptionSide::Put => {
                let diff: i64 = strike_cents as i64 - premium_cents as i64;
                let max_loss = scale_by_qty(diff, quantity_sats);
                let margin_required = apply_margin(max_loss, self.risk_margin_e6);
                let moneyness: u64 = if strike_cents > spot_cents {
                    strike_cents - spot_cents
                } else {
                    0
                };
                proof {
                    lemma_expected_product_bound(
                        prob_itm_e6 as int,
                        moneyness as int,
                        quantity_sats as int,
                    );
                }
                let pe: u128 = (prob_itm_e6 as u128) * (moneyness as u128) * (quantity_sats
                    as u128);
                proof {
                    lemma_multiply_divide_le(
                        pe as int,
                        (UNIT_SCALE * SATS_PER_BTC) as int,
                        100_000_000_000_000int,
                    );
                    lemma_div_pos_is_pos(pe as int, (UNIT_SCALE * SATS_PER_BTC) as int);
                }
                let expected_loss = (pe / ((UNIT_SCALE * SATS_PER_BTC) as u128)) as i64;
                PositionRisk {
                    max_loss_cents: max_loss,
                    expected_loss_cents: expected_loss,
                    margin_required_cents: margin_required,
                }
            },
            OptionSide::Call => {
                let max_price_move: u64 = 3 * spot_cents;
                let capped: u64 = if max_price_move > strike_cents {
                    max_price_move - strike_cents
                } else {
                    0
                };
                let diff: i64 = capped as i64 - premium_cents as i64;
                let max_loss = scale_by_qty(diff, quantity_sats);
                let margin_required = apply_margin(max_loss, self.risk_margin_e6);
                let moneyness: u64 = if spot_cents > strike_cents {
                    spot_cents - strike_cents
                } else {
                    0
                };
                proof {
                    lemma_expected_product_bound(
                        prob_itm_e6 as int,
                        moneyness as int,
                        quantity_sats as int,
                    );
                    lemma_mul_inequality(
                        (prob_itm_e6 as int) * (moneyness as int) * (quantity_sats as int),
                        (UNIT_SCALE as int) * (MAX_PRICE_CENTS as int) * (MAX_QUANTITY_SATS
                            as int),
                        3,
                    );
                    lemma_mul_nonneg(
                        (prob_itm_e6 as int) * (moneyness as int) * (quantity_sats as int),
                        3,
                    );
                }
                let pe: u128 = (prob_itm_e6 as u128) * (moneyness as u128) * (quantity_sats
                    as u128) * 3;
                proof {
                    lemma_multiply_divide_le(
                        pe as int,
                        (2 * UNIT_SCALE * SATS_PER_BTC) as int,
                        150_000_000_000_000int,
                    );
                    lemma_div_pos_is_pos(pe as int, (2 * UNIT_SCALE * SATS_PER_BTC) as int);
                }
                let expected_loss = (pe / ((2 * UNIT_SCALE * SATS_PER_BTC) as u128)) as i64;
                PositionRisk {
                    max_loss_cents: max_loss,
                    expected_loss_cents: expected_loss,
                    margin_required_cents: margin_required,
                }
            },
        }
    }

    /// The margin one booked contract reserves against the given spot.
    pub fn calculate_position_margin(&self, c: &Contract, spot_cents: u64) -> (r: i64)
        requires
            self.wf(),
            c.wf(),
            spot_cents <= MAX_PRICE_CENTS,
        ensures
            r == spec_margin_required(
                c.side,
                c.strike_price_cents as int,
                c.premium_cents as int,
                spot_cents as int,
                c.quantity_sats as int,
                self.risk_margin_e6 as int,
            ),
            -(MAX_POSITION_MARGIN_CENTS as int) <= r as int <= MAX_POSITION_MARGIN_CENTS as int,
    {
        let unit_diff: i64 = position_unit_diff(c, spot_cents);
        let max_loss = scale_by_qty(unit_diff, c.quantity_sats);
        apply_margin(max_loss, self.risk_margin_e6)
    }

    /// Total margin required by the not-yet-expired contracts of a book,
    /// against the given spot.
    ///
    /// The total sums worst-case margins only, so unlike the expected-loss
    /// diagnostic it does not consume implied volatilities.
    pub fn calculate_portfolio_risk(
        &self,
        contracts: &Vec<Contract>,
        spot_cents: u64,
        now: i64,
    ) -> (r: i64)
        requires
            self.wf(),
            spot_cents <= MAX_PRICE_CENTS,
            contracts@.len() <= MAX_BOOK_LEN,
            all_wf(contracts@),
        ensures
            r == spec_portfolio_risk(
                contracts@,
                spot_cents as int,
                now as int,
                self.risk_margin_e6 as int,
            ),
            -(contracts@.len() * MAX_POSITION_MARGIN_CENTS) <= r as int <= contracts@.len()
                * MAX_POSITION_MARGIN_CENTS,
    {
        let ghost spot = spot_cents as int;
        let ghost m = self.risk_margin_e6 as int;
        let mut total: i64 = 0;
        let mut i: usize = 0;
        let n = contracts.len();
        while i < n
            invariant
                self.wf(),
                spot_cents <= MAX_PRICE_CENTS,
                n == contracts@.len(),
                n <= MAX_BOOK_LEN,
                all_wf(contracts@),
                i <= n,
                spot == spot_cents as int,
                m == self.risk_margin_e6 as int,
                total == spec_portfolio_risk(contracts@.take(i as int), spot, now as int, m),
                -(i * MAX_POSITION_MARGIN_CENTS) <= total as int <= i
                    * MAX_POSITION_MARGIN_CENTS,
            decreases n - i,
        {
            let c = &contracts[i];
            proof {
                assert(contracts@.take(i + 1).drop_last() =~= contracts@.take(i as int));
                assert(contracts@.take(i + 1).last() == contracts@[i as int]);
                assert(contracts@[i as int].wf());
            }
            if c.expires > now {
                let margin = self.calculate_position_margin(c, spot_cents);
                total = total + margin;
            }
            i += 1;
        }
        proof {
            assert(contracts@.take(n as int) =~= contracts@);
        }
        total
    }

    /// Largest quantity of the prospective position that `available` cents
    /// of collateral can back, in satoshis, capped at 1000 BTC. Zero when no
    /// collateral is free or the unit margin is zero or negative.
    ///
    /// `available_collateral_cents` is already net of existing risk; the
    /// trailing parameter only documents that and does not enter the result.
    pub fn calculate_max_quantity(
        &self,
        side: &OptionSide,
        strike_cents: u64,
        premium_cents: u64,
        spot_cents: u64,
        prob_itm_e6: u64,
        available_collateral_cents: i64,
        _existing_risk_cents: i64,
    ) -> (r: u64)
        requires
            self.wf(),
            strike_cents <= MAX_PRICE_CENTS,
            premium_cents <= MAX_PRICE_CENTS,
            spot_cents <= MAX_PRICE_CENTS,
            prob_itm_e6 <= UNIT_SCALE,
        ensures
            r == spec_max_quantity(
                spec_margin_required(
                    *side,
                    strike_cents as int,
                    premium_cents as int,
                    spot_cents as int,
                    SATS_PER_BTC as int,
                    self.risk_margin_e6 as int,
                ),
                available_collateral_cents as int,
            ),
            r <= POSITION_CAP_SATS,
    {
        let unit_risk = self.calculate_position_risk(
            side,
            strike_cents,
            premium_cents,
            SATS_PER_BTC,
            spot_cents,
            prob_itm_e6,
        );
        if available_collateral_cents <= 0 || unit_risk.margin_required_cents <= 0 {
            return 0;
        }
        let avail: u128 = available_collateral_cents as u128;
        proof {
            lemma_mul_upper_bound(avail as int, i64::MAX as int, SATS_PER_BTC as int,
                SATS_PER_BTC as int);
        }
        let p: u128 = avail * (SATS_PER_BTC as u128);
        let q: u128 = p / (unit_risk.margin_required_cents as u128);
        proof {
            lemma_div_pos_is_pos(p as int, unit_risk.margin_required_cents as int);
        }
        if q >= POSITION_CAP_SATS as u128 {
            POSITION_CAP_SATS
        } else {
            q as u64
        }
    }
}

/// The signed per-BTC loss figure of a booked contract against the spot.
fn position_unit_diff(c: &Contract, spot_cents: u64) -> (r: i64)
    requires
        c.wf(),
        spot_cents <= MAX_PRICE_CENTS,
    ensures
        r as int == match c.side {
            OptionSide::Put => c.strike_price_cents - c.premium_cents,
            OptionSide::Call => spec_max0(3 * spot_cents - c.strike_price_cents)
                - c.premium_cents,
        },
        -(MAX_UNIT_DIFF_CENTS as int) <= r as int <= MAX_UNIT_DIFF_CENTS as int,
{
    match c.side {
        OptionSide::Put => c.strike_price_cents as i64 - c.premium_cents as i64,
        OptionSide::Call => {
            let max_price_move: u64 = 3 * spot_cents;
            let capped: u64 = if max_price_move > c.strike_price_cents {
                max_price_move - c.strike_price_cents
            } else {
                0
            };
            capped as i64 - c.premium_cents as i64
        },
    }
}

/// Bound on the expected-loss numerator under the machine limits.
proof fn lemma_expected_product_bound(prob: int, moneyness: int, qty: int)
    requires
        0 <= prob <= UNIT_SCALE,
        0 <= moneyness <= MAX_PRICE_CENTS,
        0 <= qty <= MAX_QUANTITY_SATS,
    ensures
        0 <= prob * moneyness <= (UNIT_SCALE as int) * (MAX_PRICE_CENTS as int),
        0 <= prob * moneyness * qty <= (UNIT_SCALE as int) * (MAX_PRICE_CENTS as int) * (
        MAX_QUANTITY_SATS as int),
{
    lemma_mul_upper_bound(prob, UNIT_SCALE as int, moneyness, MAX_PRICE_CENTS as int);
    lemma_mul_nonneg(prob, moneyness);
    lemma_mul_upper_bound(
        prob * moneyness,
        (UNIT_SCALE as int) * (MAX_PRICE_CENTS as int),
        qty,
        MAX_QUANTITY_SATS as int,
    );
    lemma_mul_nonneg(prob * moneyness, qty);
}

proof fn lemma_mul_nonneg(x: int, y: int)
    requires
        0 <= x,
        0 <= y,
    ensures
        0 <= x * y,
{
    vstd::arithmetic::mul::lemma_mul_nonnegative(x, y);
}


/// For every strike, premium and whole-BTC quantity, a put seller's worst
/// case pays exactly the strike less the premium on each contract.
pub proof fn lemma_put_max_loss_exact(strike: int, premium: int, spot: int, n: int)
    requires
        0 <= n,
    ensures
        spec_max_loss(OptionSide::Put, strike, premium, spot, n * (SATS_PER_BTC as int)) == (
        strike - premium) * n,
{
    lemma_scale_whole_btc(strike - premium, n);
}

/// A put seller's worst case never shrinks as the strike grows.
pub proof fn lemma_put_max_loss_monotonic(k1: int, k2: int, premium: int, spot: int, qty: int)
    requires
        k1 <= k2,
        0 <= qty,
    ensures
        spec_max_loss(OptionSide::Put, k1, premium, spot, qty) <= spec_max_loss(
            OptionSide::Put,
            k2,
            premium,
            spot,
            qty,
        ),
{
    lemma_scale_monotonic(k1 - premium, k2 - premium, qty);
}

/// The margin a position reserves is exactly its worst-case loss under the
/// risk-margin multiplier, for calls and puts alike.
pub proof fn lemma_margin_required_formula(
    side: OptionSide,
    strike: int,
    premium: int,
    spot: int,
    qty: int,
    m: int,
)
    ensures
        spec_margin_required(side, strike, premium, spot, qty, m) == spec_apply_margin(
            spec_max_loss(side, strike, premium, spot, qty),
            m,
        ),
{
}

/// The margin a position reserves is exactly its worst-case loss times the
/// risk-margin multiplier whenever that product lands on a whole cent.
pub proof fn lemma_margin_exact_when_divisible(ml: int, m: int)
    requires
        0 <= ml,
        0 <= m,
        (ml * m) % (UNIT_SCALE as int) == 0,
    ensures
        spec_apply_margin(ml, m) * (UNIT_SCALE as int) == ml * m,
{
    lemma_fundamental_div_mod(ml * m, UNIT_SCALE as int);
    lemma_mul_is_commutative(UNIT_SCALE as int, (ml * m) / (UNIT_SCALE as int));
}

/// The admission size is never negative nor above the hard position cap, and
/// is zero when no collateral is free or the unit margin is not positive.
pub proof fn lemma_max_quantity_bounds(unit_margin: int, available: int)
    ensures
        0 <= spec_max_quantity(unit_margin, available) <= POSITION_CAP_SATS,
        available <= 0 || unit_margin <= 0 ==> spec_max_quantity(unit_margin, available) == 0,
{
    if available > 0 && unit_margin > 0 {
        lemma_mul_nonneg(available, SATS_PER_BTC as int);
        lemma_div_pos_is_pos(available * (SATS_PER_BTC as int), unit_margin);
    }
}

/// Scaling a per-BTC amount by a whole number of BTC is an exact product.
proof fn lemma_scale_whole_btc(a: int, n: int)
    requires
        0 <= n,
    ensures
        spec_scale_by_qty(a, n * (SATS_PER_BTC as int)) == a * n,
{
    let s = SATS_PER_BTC as int;
    if a >= 0 {
        assert(a * (n * s) == (a * n) * s) by {
            lemma_mul_is_associative(a, n, s);
        }
        assert(((a * n) * s) == s * (a * n)) by {
            lemma_mul_is_commutative(a * n, s);
        }
        lemma_div_multiples_vanish(a * n, s);
    } else {
        assert((-a) * (n * s) == ((-a) * n) * s) by {
            lemma_mul_is_associative(-a, n, s);
        }
        assert((-a) * n == -(a * n)) by {
            lemma_mul_unary_negation(a, n);
        }
        assert((-(a * n)) * s == s * (-(a * n))) by {
            lemma_mul_is_commutative(-(a * n), s);
        }
        lemma_div_multiples_vanish(-(a * n), s);
    }
}

/// Scaling by a nonnegative quantity preserves the order of per-BTC amounts.
proof fn lemma_scale_monotonic(a1: int, a2: int, q: int)
    requires
        a1 <= a2,
        0 <= q,
    ensures
        spec_scale_by_qty(a1, q) <= spec_scale_by_qty(a2, q),
{
    let s = SATS_PER_BTC as int;
    if a1 >= 0 {
        lemma_mul_inequality(a1, a2, q);
        lemma_div_is_ordered(a1 * q, a2 * q, s);
    } else if a2 >= 0 {
        lemma_mul_nonneg(-a1, q);
        lemma_div_pos_is_pos((-a1) * q, s);
        lemma_mul_nonneg(a2, q);
        lemma_div_pos_is_pos(a2 * q, s);
    } else {
        lemma_mul_inequality(-a2, -a1, q);
        lemma_div_is_ordered((-a2) * q, (-a1) * q, s);
    }
}

} // verus!

