//! A generic congestion-avoidance flow driver.
//!
//! The driver sits between a datapath, which reports raw per-connection
//! events, and a pluggable window policy. It decides when accumulated events
//! are flushed into one snapshot, detects stalled flows, tracks the growth
//! phase of each flow and hands snapshots to the policy.
//!
//! - `config`: the configuration of a run and the keyed surface it is read
//!   from.
//! - `channel`: the check of the channel selector.
//! - `flow`: the state kept per flow.
//! - `scheduler`, `detector`, `growth`, `compensation`: the four units that
//!   work on that state.
//! - `dispatch`: one pass of a flow through scheduler and detector.
//! - `policy`: the operations of a policy and the driver that calls them.
//! - `measurements`: the snapshot and the record that crosses to the policy.
//! - `laws`: what holds of every run.
//!
//! Times are in microseconds throughout, as are round-trip samples.

pub mod channel;
pub mod compensation;
pub mod config;
pub mod detector;
pub mod dispatch;
pub mod flow;
pub mod growth;
pub mod laws;
pub mod measurements;
pub mod policy;
pub mod scheduler;
pub mod text;
