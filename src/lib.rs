//! A staking ledger with round-based reward distribution.
//!
//! Stakers lock an asset for a chosen duration, receive a share of each
//! operator-declared reward round weighted by their lock tier, claim those
//! rewards at any time, and on close receive their principal plus, if the lock
//! has matured, a completion bonus. Every operation here is a pure state
//! transition: moving tokens, reading the clock and checking signatures are
//! left to the host, which hands in plain values.

mod identity;
pub mod lock;
pub mod state;
pub mod lifecycle;
pub mod rewards;
pub mod distribution;
pub mod eligibility;

pub use identity::Identity;
