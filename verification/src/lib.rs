//! Pricing engines for two restaking risk markets: a validator-uptime market
//! priced with an edge spread that widens near probability extremes, and a
//! restaking-yield market priced with a volatility-regime spread multiplier.
//!
//! Each market instance lives in one 320-byte context record. The record is
//! created once by `Init`, refreshed by oracle `Sync` operations, and quoted
//! on demand by `Match`; the uptime market is additionally settled exactly
//! once by `Resolve`. Every operation validates the record's type tag and the
//! caller's identity before touching any state, and every failure aborts the
//! operation with the record unchanged.

pub mod codec;
pub mod errors;
pub mod record;
pub mod uptime_instructions;
pub mod uptime_pricing;
pub mod uptime_state;
pub mod yield_instructions;
pub mod yield_pricing;
pub mod yield_state;
