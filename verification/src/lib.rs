//! Settlement core for a fixed-supply token sale with voucher-gated
//! purchases and a linear token-vesting scheduler.
//!
//! The library holds the transactional decision logic only: voucher
//! validation and replay rejection, sale-supply accounting, and the
//! vesting/claim/revoke arithmetic. Every public operation is a pure
//! transition from plain record values to either a fully-formed outcome
//! or an error, so a host can apply the outcome atomically or discard
//! it whole. The host-side collaborators — the keyed record store, the
//! deterministic address derivation, the value-transfer primitive, the
//! signature verifier and the clock — stay outside: they hand this core
//! plain values (records, timestamps, a verdict on a signature) and
//! apply the outcomes it returns.

pub mod errors;
pub mod ids;
pub mod sale;
pub mod state;
pub mod vesting;
pub mod vesting_math;
pub mod voucher;
