//! A load-generation harness for publish/subscribe brokers: the run state,
//! the latency recorder and its percentile engine, the worker lifecycle and
//! the orchestration rules, all as plain values with proved contracts.

pub mod cli;
pub mod client;
pub mod clock;
pub mod command;
pub mod fleet;
pub mod state;
pub mod statistics;
pub mod subscription;
pub mod text;
pub mod wire;
pub mod worker;
