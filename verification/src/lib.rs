//! A single-pass ledger engine: accounts with available and held balances,
//! and a settlement engine that applies deposits, withdrawals, disputes,
//! resolves and chargebacks one record at a time.
//!
//! Amounts are fixed-point decimals held in an `i64` number of tenths of a
//! currency unit, matching the one fractional digit of the final report.

pub mod acc;
pub mod errors;
pub mod trans;
