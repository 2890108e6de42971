//! A verified replay engine for per-client payment accounts.
//!
//! An ordered log of records (deposits, withdrawals and dispute events) is
//! validated, aggregated and replayed into per-client account balances.
//! All monetary values are fixed-point integers counting units of 1/10000
//! of the currency, so every balance update is exact.

pub mod account;
pub mod errors;
pub mod instructions;
pub mod payment_engine;
pub mod records;
pub mod transaction;
pub mod validation;
