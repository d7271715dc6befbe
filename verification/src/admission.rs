//! The admission controller: whether a prospective contract may be written
//! against the pool, and at what maximum size.
//!
//! One admission check is a single pass: validate the expiry, price the
//! current book's risk against live spot, derive the collateral still free,
//! bound the candidate's size, and re-check the whole book with the
//! candidate included as a structural safety net. The network fetches that
//! feed it (pool balance, spot, book) happen outside the library and their
//! results come in as arguments; either fetch failing is a terminal error
//! for the request before this code runs.
//!
//! The decision depends only on worst-case margins, never on implied
//! volatility: the volatility resolved for the candidate on the request path
//! feeds only the expected-loss diagnostic of `calculate_position_risk`.
//!
//! Two concurrent admissions may read the same book and both pass: the
//! check is deliberately not transactional against concurrent writers, as
//! the service's storage layer owns serialization.

use vstd::prelude::*;
use vstd::string::StringExecFns;

use crate::contract::{all_wf, Contract, MAX_BOOK_LEN, MAX_POOL_SATS, MAX_PRICE_CENTS};
use crate::errors::ApiError;
use crate::risk_manager::{spec_margin_required, spec_max_quantity, spec_portfolio_risk,
    RiskManager, RiskMetrics};
use crate::utils::{format_btc, format_cents, spec_format_btc, spec_format_cents, SATS_PER_BTC,
    UNIT_SCALE};
use vstd::arithmetic::div_mod::{lemma_div_pos_is_pos, lemma_multiply_divide_le};
use vstd::arithmetic::mul::{lemma_mul_nonnegative, lemma_mul_upper_bound};

verus! {

/// Largest total collateral a pool can carry under the machine limits:
/// `MAX_POOL_SATS * MAX_PRICE_CENTS / SATS_PER_BTC`.
pub const MAX_TOTAL_COLLATERAL_CENTS: u64 = 210_000_000_000_000_000;

pub struct AdmissionController {
    pub risk_manager: RiskManager,
    /// Fraction of pooled assets allowed to back open risk, in millionths
    /// (500_000 is one half).
    pub collateral_rate_e6: u64,
}

/// Collateral the pool provides: its BTC balance valued at spot, scaled by
/// the collateral rate, rounded down.
pub open spec fn spec_total_collateral(pool_sats: int, spot: int, rate: int) -> int {
    (pool_sats * spot * rate) / ((SATS_PER_BTC * UNIT_SCALE) as int)
}

impl AdmissionController {
    pub open spec fn wf(self) -> bool {
        self.risk_manager.wf() && self.collateral_rate_e6 <= UNIT_SCALE
    }

    pub fn new(risk_margin_e6: u64, collateral_rate_e6: u64) -> (r: AdmissionController)
        ensures
            r.risk_manager.risk_margin_e6 == risk_margin_e6,
            r.collateral_rate_e6 == collateral_rate_e6,
    {
        AdmissionController {
            risk_manager: RiskManager::new(risk_margin_e6),
            collateral_rate_e6,
        }
    }

    /// The collateral still free after the existing book's risk.
    pub open spec fn spec_available(
        self,
        book: Seq<Contract>,
        pool_sats: int,
        spot: int,
        now: int,
    ) -> int {
        spec_total_collateral(pool_sats, spot, self.collateral_rate_e6 as int)
            - spec_portfolio_risk(book, spot, now, self.risk_manager.risk_margin_e6 as int)
    }

    /// The margin one whole BTC of the candidate would reserve.
    pub open spec fn spec_unit_margin(self, candidate: Contract, spot: int) -> int {
        spec_margin_required(
            candidate.side,
            candidate.strike_price_cents as int,
            candidate.premium_cents as int,
            spot,
            SATS_PER_BTC as int,
            self.risk_manager.risk_margin_e6 as int,
        )
    }

    /// The largest admissible quantity for the candidate.
    pub open spec fn spec_admit_max_quantity(
        self,
        candidate: Contract,
        book: Seq<Contract>,
        pool_sats: int,
        spot: int,
        now: int,
    ) -> int {
        spec_max_quantity(
            self.spec_unit_margin(candidate, spot),
            self.spec_available(book, pool_sats, spot, now),
        )
    }

    /// The margin the candidate itself would reserve at its full quantity.
    pub open spec fn spec_candidate_margin(self, candidate: Contract, spot: int) -> int {
        spec_margin_required(
            candidate.side,
            candidate.strike_price_cents as int,
            candidate.premium_cents as int,
            spot,
            candidate.quantity_sats as int,
            self.risk_manager.risk_margin_e6 as int,
        )
    }

    /// The collateral still free: the pool's total collateral less the
    /// existing book's required margin. The options table sizes its
    /// quotes against this.
    pub fn available_collateral(
        &self,
        book: &Vec<Contract>,
        pool_sats: u64,
        spot_cents: u64,
        now: i64,
    ) -> (r: i64)
        requires
            self.wf(),
            spot_cents <= MAX_PRICE_CENTS,
            pool_sats <= MAX_POOL_SATS,
            book@.len() <= MAX_BOOK_LEN,
            all_wf(book@),
        ensures
            r == self.spec_available(book@, pool_sats as int, spot_cents as int, now as int),
    {
        let existing = self.risk_manager.calculate_portfolio_risk(book, spot_cents, now);
        let total = total_collateral(pool_sats, spot_cents, self.collateral_rate_e6);
        total - existing
    }

    /// Decides whether the candidate may be written, given the fetched pool
    /// balance, spot price and current non-expired book.
    ///
    /// Rejections are `ValidationError`s: an expiry not in the future; a
    /// quantity above the maximum the free collateral can back; and, as a
    /// structural invariant check, a book-plus-candidate margin above the
    /// pool's total collateral (unreachable when the quantity check does its
    /// job, kept as a safety net). Approval returns the numbers the decision
    /// was made on.
    pub fn approve(
        &self,
        candidate: &Contract,
        now: i64,
        pool_sats: u64,
        spot_cents: u64,
        book: &Vec<Contract>,
    ) -> (r: Result<RiskMetrics, ApiError>)
        requires
            self.wf(),
            candidate.wf(),
            spot_cents <= MAX_PRICE_CENTS,
            pool_sats <= MAX_POOL_SATS,
            book@.len() < MAX_BOOK_LEN,
            all_wf(book@),
        ensures
            ({
                let existing = spec_portfolio_risk(
                    book@,
                    spot_cents as int,
                    now as int,
                    self.risk_manager.risk_margin_e6 as int,
                );
                let total = spec_total_collateral(
                    pool_sats as int,
                    spot_cents as int,
                    self.collateral_rate_e6 as int,
                );
                let available = total - existing;
                let maxq = self.spec_admit_max_quantity(
                    *candidate,
                    book@,
                    pool_sats as int,
                    spot_cents as int,
                    now as int,
                );
                let cand_margin = self.spec_candidate_margin(*candidate, spot_cents as int);
                &&& (r is Ok <==> candidate.expires > now && candidate.quantity_sats <= maxq
                    && existing + cand_margin <= total)
                &&& (r is Ok ==> r->Ok_0 == (RiskMetrics {
                    position_risk_cents: cand_margin as i64,
                    total_risk_exposure_cents: existing as i64,
                    available_collateral_cents: available as i64,
                    max_quantity_sats: maxq as u64,
                }))
                &&& (candidate.expires <= now ==> r is Err && (r->Err_0 matches
                    ApiError::ValidationError(m) && m@
                    == "Contract expiration date must be in the future."@))
                &&& (candidate.expires > now && candidate.quantity_sats > maxq ==> r is Err && (
                r->Err_0 matches ApiError::ValidationError(m) && m@
                    == spec_reject_quantity_message(
                    candidate.quantity_sats,
                    maxq as u64,
                    available,
                    existing,
                    total,
                )))
                &&& (candidate.expires > now && candidate.quantity_sats <= maxq && existing
                    + cand_margin > total ==> r is Err && (r->Err_0 matches
                    ApiError::ValidationError(m) && m@ == spec_reject_risk_message(
                    cand_margin,
                    existing + cand_margin,
                    total,
                )))
            }),
    {
        if candidate.expires <= now {
            return Err(
                ApiError::ValidationError(
                    "Contract expiration date must be in the future.".to_owned(),
                ),
            );
        }
        let existing = self.risk_manager.calculate_portfolio_risk(book, spot_cents, now);
        let total = total_collateral(pool_sats, spot_cents, self.collateral_rate_e6);
        let available = total - existing;
        let maxq = self.risk_manager.calculate_max_quantity(
            &candidate.side,
            candidate.strike_price_cents,
            candidate.premium_cents,
            spot_cents,
            0,
            available,
            existing,
        );
        if candidate.quantity_sats > maxq {
            return Err(
                ApiError::ValidationError(
                    reject_quantity_message(
                        candidate.quantity_sats,
                        maxq,
                        available,
                        existing,
                        total,
                    ),
                ),
            );
        }
        let cand_margin = self.risk_manager.calculate_position_margin(candidate, spot_cents);
        let total_with_new = existing + cand_margin;
        if total_with_new > total {
            return Err(
                ApiError::ValidationError(
                    reject_risk_message(cand_margin, total_with_new, total),
                ),
            );
        }
        Ok(
            RiskMetrics {
                position_risk_cents: cand_margin,
                total_risk_exposure_cents: existing,
                available_collateral_cents: available,
                max_quantity_sats: maxq,
            },
        )
    }
}

/// The message a quantity rejection carries.
pub open spec fn spec_reject_quantity_message(
    qty_sats: u64,
    maxq_sats: u64,
    available: int,
    existing: int,
    total: int,
) -> Seq<char> {
    "Requested quantity ("@ + spec_format_btc(qty_sats as nat)
        + ") exceeds maximum allowed quantity ("@ + spec_format_btc(maxq_sats as nat)
        + "). Available collateral: $"@ + spec_format_cents(available)
        + ", Existing risk exposure: $"@ + spec_format_cents(existing)
        + ", Total collateral pool: $"@ + spec_format_cents(total)
}

/// The message the structural risk re-check carries.
pub open spec fn spec_reject_risk_message(cand_margin: int, total_with_new: int, total: int)
    -> Seq<char> {
    "Contract risk exceeds available collateral. New position margin required: $"@
        + spec_format_cents(cand_margin) + ", Total portfolio margin would be: $"@
        + spec_format_cents(total_with_new) + ", Available collateral: $"@ + spec_format_cents(
        total,
    )
}

fn reject_quantity_message(qty_sats: u64, maxq_sats: u64, available: i64, existing: i64,
    total: i64) -> (r: String)
    requires
        available != i64::MIN,
        existing != i64::MIN,
        total != i64::MIN,
    ensures
        r@ == spec_reject_quantity_message(
            qty_sats,
            maxq_sats,
            available as int,
            existing as int,
            total as int,
        ),
{
    let mut s = "Requested quantity (".to_owned();
    let t1 = format_btc(qty_sats);
    s.append(t1.as_str());
    s.append(") exceeds maximum allowed quantity (");
    let t2 = format_btc(maxq_sats);
    s.append(t2.as_str());
    s.append("). Available collateral: $");
    let t3 = format_cents(available);
    s.append(t3.as_str());
    s.append(", Existing risk exposure: $");
    let t4 = format_cents(existing);
    s.append(t4.as_str());
    s.append(", Total collateral pool: $");
    let t5 = format_cents(total);
    s.append(t5.as_str());
    s
}

fn reject_risk_message(cand_margin: i64, total_with_new: i64, total: i64) -> (r: String)
    requires
        cand_margin != i64::MIN,
        total_with_new != i64::MIN,
        total != i64::MIN,
    ensures
        r@ == spec_reject_risk_message(cand_margin as int, total_with_new as int, total as int),
{
    let mut s = "Contract risk exceeds available collateral. New position margin required: $"
        .to_owned();
    let t1 = format_cents(cand_margin);
    s.append(t1.as_str());
    s.append(", Total portfolio margin would be: $");
    let t2 = format_cents(total_with_new);
    s.append(t2.as_str());
    s.append(", Available collateral: $");
    let t3 = format_cents(total);
    s.append(t3.as_str());
    s
}

/// Fixed-point pool valuation.
fn total_collateral(pool_sats: u64, spot_cents: u64, rate_e6: u64) -> (r: i64)
    requires
        pool_sats <= MAX_POOL_SATS,
        spot_cents <= MAX_PRICE_CENTS,
        rate_e6 <= UNIT_SCALE,
    ensures
        r == spec_total_collateral(pool_sats as int, spot_cents as int, rate_e6 as int),
        0 <= r <= MAX_TOTAL_COLLATERAL_CENTS,
{
    proof {
        lemma_mul_upper_bound(
            pool_sats as int,
            MAX_POOL_SATS as int,
            spot_cents as int,
            MAX_PRICE_CENTS as int,
        );
        lemma_mul_nonnegative(pool_sats as int, spot_cents as int);
    }
    let p1: u128 = (pool_sats as u128) * (spot_cents as u128);
    proof {
        lemma_mul_upper_bound(
            p1 as int,
            (MAX_POOL_SATS as int) * (MAX_PRICE_CENTS as int),
            rate_e6 as int,
            UNIT_SCALE as int,
        );
        lemma_mul_nonnegative(p1 as int, rate_e6 as int);
    }
    let p2: u128 = p1 * (rate_e6 as u128);
    proof {
        lemma_multiply_divide_le(
            p2 as int,
            (SATS_PER_BTC * UNIT_SCALE) as int,
            MAX_TOTAL_COLLATERAL_CENTS as int,
        );
        lemma_div_pos_is_pos(p2 as int, (SATS_PER_BTC * UNIT_SCALE) as int);
    }
    let d = p2 / ((SATS_PER_BTC * UNIT_SCALE) as u128);
    d as i64
}

} // verus!
