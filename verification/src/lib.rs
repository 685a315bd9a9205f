//! Client-side update ingestion for a chat-bot long-polling platform.
//!
//! The core of the crate is the update ingestion pipeline: a polling state
//! machine that tracks a resumption marker, an ordered bounded delivery
//! queue with backpressure, and an exponential retry policy. The pipeline
//! guarantees that updates reach the consumer in platform order and that
//! the marker never advances past an undelivered batch, so a restart from
//! the last stored marker re-delivers events instead of losing them.

pub mod ingest;
pub mod models;
pub mod poller;
pub mod query;
pub mod queue;
pub mod retry;
