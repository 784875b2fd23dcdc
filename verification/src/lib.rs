//! A dynamic-DNS core library.
//!
//! The crate holds the decision logic of a dynamic-DNS client: a token-bucket
//! rate limiter, a bounded TTL cache of provider records, a consensus-based
//! public-address detector, a zone synchronization engine, and the
//! orchestration rules that tie them together. All time is passed in as plain
//! seconds and all network traffic is driven from outside through explicit
//! action/event state machines, so every rule in here is verified.

pub mod cache;
pub mod detector;
pub mod health;
pub mod ip;
pub mod json;
pub mod metrics;
pub mod orchestrator;
pub mod rate_limiter;
pub mod settings;
pub mod sync;
pub mod text;
