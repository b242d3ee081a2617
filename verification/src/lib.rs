//! Decision engine of a peg-defence keeper.
//!
//! The keeper watches the reserves of an automated-market-maker pool, decides
//! whether the pool price has left the band around parity, sizes the swap that
//! brings it back, and encodes the call that a stability module executes.
//! Everything here computes on plain values; reading the chain and sending
//! transactions is left to the caller.

pub mod config;
pub mod decimal;
pub mod encoder;
pub mod error;
pub mod executor;
pub mod keeper;
pub mod rebalance;
pub mod token;
pub mod uint;
pub mod units;
