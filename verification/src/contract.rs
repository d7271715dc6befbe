//! The position data model: a booked or prospective option contract, in
//! fixed-point units, and the machine limits the engine works under.

use vstd::prelude::*;

use crate::side::OptionSide;

verus! {

/// Largest price-like amount (strike, premium, spot) the engine accepts:
/// 10^10 cents, i.e. a hundred million dollars.
pub const MAX_PRICE_CENTS: u64 = 10_000_000_000;

/// Largest position size the engine accepts: 10^12 satoshis, i.e. 10 000 BTC.
pub const MAX_QUANTITY_SATS: u64 = 1_000_000_000_000;

/// Largest risk-margin multiplier the engine accepts: 10x.
pub const MAX_RISK_MARGIN_E6: u64 = 10_000_000;

/// Largest book an admission check will walk.
pub const MAX_BOOK_LEN: usize = 1_000;

/// Largest collateral pool the engine accepts: all 21 million BTC.
pub const MAX_POOL_SATS: u64 = 2_100_000_000_000_000;

/// An option contract written against the pool.
///
/// `strike_price_cents` and `premium_cents` are USD cents, `quantity_sats`
/// is satoshis, and `expires` is a UNIX timestamp in seconds.
#[derive(Clone, Copy, Debug, PartialEq, Eq, Structural)]
pub struct Contract {
    pub side: OptionSide,
    pub strike_price_cents: u64,
    pub quantity_sats: u64,
    pub expires: i64,
    pub premium_cents: u64,
}

impl Contract {
    /// The machine limits under which every risk computation is proved free
    /// of overflow.
    pub open spec fn wf(self) -> bool {
        self.strike_price_cents <= MAX_PRICE_CENTS && self.premium_cents <= MAX_PRICE_CENTS
            && self.quantity_sats <= MAX_QUANTITY_SATS
    }

    /// Checks the machine limits; callers outside the library test this
    /// before handing a contract to the engine.
    pub fn within_limits(&self) -> (r: bool)
        ensures
            r == self.wf(),
    {
        self.strike_price_cents <= MAX_PRICE_CENTS && self.premium_cents <= MAX_PRICE_CENTS
            && self.quantity_sats <= MAX_QUANTITY_SATS
    }
}

pub open spec fn all_wf(contracts: Seq<Contract>) -> bool {
    forall|i: int| 0 <= i < contracts.len() ==> (#[trigger] contracts[i]).wf()
}

} // verus!
