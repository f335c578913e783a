//! Verified core of two on-chain value-distribution contracts:
//! a capped, single-claim-per-address distributor and a
//! native-asset-to-token converter with an operator-gated reward path.
//!
//! The library holds the validation and state-transition logic; the host
//! glue (storage engine, address validation, message dispatch) lives
//! outside and hands the library plain values.

pub mod claimdrop;
pub mod converter;
pub mod types;
