//! Collateralized BTC options-writing backend: a risk engine, a volatility
//! surface cache and a spot-price cache, with an admission controller that
//! bounds how much size may be written against a liquidity pool.
//!
//! All market values are fixed-point integers: USD amounts in cents, BTC
//! amounts in satoshis, and volatilities, probabilities and rate-like
//! multipliers in millionths.

pub mod admission;
pub mod contract;
pub mod errors;
pub mod instrument;
pub mod iv_oracle;
pub mod mutiny_wallet;
pub mod price_oracle;
pub mod risk_manager;
pub mod side;
pub mod text;
pub mod utils;
