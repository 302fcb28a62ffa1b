//! Valuation snapshots for a liquid-staking token.
//!
//! Given a view of one on-chain transaction and the raw bytes of the
//! protocol's state account, this library decides whether the transaction
//! touched the protocol's accounting state, decodes the fixed-layout state
//! record, and computes the token's backing-asset value at that moment.

pub mod classify;
pub mod diff;
pub mod pipeline;
pub mod rate;
pub mod snapshot;
pub mod state;
pub mod tags;
