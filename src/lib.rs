//! A strategy orchestrator that builds and unwinds a leveraged, two-legged liquidity
//! position for pooled depositors on top of a lending service, a swap venue and a yield
//! vault.
//!
//! The library holds what each step of the lifecycle decides: the addresses it derives, the
//! records it keeps, how a deposit is sized into two legs, and which calls into the outside
//! services a step makes, in which order. Making those calls is left to the caller.

pub mod address;
pub mod decimal;
pub mod error;
pub mod lifecycle;
pub mod sizing;
pub mod state;
