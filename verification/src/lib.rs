//! Cross-market arbitrage engine: verified core.
//!
//! The library holds the decision logic of the engine — the execution-plan
//! builder, the per-strategy step state machine, the differential-rate
//! computation with its edge-triggered history, the sliding candle window and
//! the band indicator that drives stable-coin hedging — together with the
//! fixed-point arithmetic those rules are written in.  Everything here is
//! pure: exchange calls, the relational store, the price cache and the local
//! candle store stay outside and hand the library plain values.

pub mod band;
pub mod dec;
pub mod diffrate;
pub mod kline;
pub mod laws;
pub mod machine;
pub mod exchange;
pub mod hedge;
pub mod model;
pub mod plan;
pub mod price;
pub mod provision;
pub mod shard;
pub mod reconcile;

pub use dec::Dec;
