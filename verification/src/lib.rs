//! A clipboard change-watcher core: a change detector over observed clipboard
//! content, a polling scheduler with adaptive backoff on repeated read errors,
//! and a bounded, latest-wins notification slot toward the consumer.
//!
//! The platform clipboard call itself, the timer, and the delivery channel are
//! supplied by the embedding application; this crate holds the decisions: when
//! an observation counts as a change, what to notify, and how long to wait
//! before the next read.

pub mod config;
pub mod content;
pub mod detector;
pub mod scheduler;
pub mod sink;
pub mod laws;
