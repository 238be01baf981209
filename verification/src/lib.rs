//! Verified core of a compute node's telemetry pipeline.
//!
//! A node periodically samples its host and accelerator devices, merges in the
//! serving-engine statistics, and publishes the record, hashed and signed, to its
//! peers. This crate holds the rules of that pipeline as functions from plain values
//! to plain values, each with a contract that Verus proves. Reading hardware,
//! talking to the network, encoding to bytes and signing are the caller's part.

pub mod binary64;
pub mod confidential;
pub mod config;
pub mod metrics;
pub mod publisher;
pub mod query;
pub mod receiver;
pub mod serving;
pub mod text;
pub mod types;
