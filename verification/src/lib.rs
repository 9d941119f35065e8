//! Hybrid authorization engine:
//! - SpiceDB (Authzed API) for structural ReBAC.
//! - Cedar for contextual ABAC guardrails at the edge.
//!
//! This crate holds the rules: which request goes to SpiceDB, what its replies
//! mean, how the replication worker batches and retries, and how the two
//! layers are fused into one decision. It performs no I/O.

pub mod cedar;
pub mod engine;
pub mod replication;
pub mod spicedb;
pub mod startup;
pub mod types;
