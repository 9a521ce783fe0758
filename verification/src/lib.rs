//! Verified core of a trading-signal hub.
//!
//! Strategists publish directional signals under named strategies, an oracle
//! resolves each signal against an observed value, aggregate performance
//! statistics are recomputed from the full signal history, follower
//! relationships are tracked, and accounts on one execution shard subscribe
//! to a strategist hosted on another shard through an asynchronous
//! three-message handshake.
//!
//! The shard runtime (durable storage, message transport, clocks, signer
//! authentication) lives outside this crate: every operation takes the
//! caller identity and the current time as plain values and returns the
//! messages it wants delivered, so the whole state machine is verified here
//! while an unverified driver performs the outside work.

pub mod dispatch;
pub mod laws;
pub mod model;
pub mod pnl;
pub mod queries;
pub mod signals;
pub mod social;
pub mod state;
pub mod strategies;
pub mod subscriptions;
pub mod types;
