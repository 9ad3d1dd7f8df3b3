//! Genesis bootstrap for a replicated on-chain ledger protocol.
//!
//! The library models the protocol's initial state as five fixed-layout
//! records (Board, Config, Treasury, the treasury's token holding account,
//! and Round 0), each reachable only through a deterministically derived
//! address, and proves that bootstrapping them is idempotent, safe to retry
//! after partial failure, and establishes a verifiable zero-state.

pub mod addr;
pub mod error;
pub mod records;
pub mod derivation;
pub mod bootstrap;
pub mod laws;
