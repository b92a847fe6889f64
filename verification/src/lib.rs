//! Verified core of a batch fetch-and-compress pipeline.
//!
//! The library holds the decision logic of the pipeline: the per-attempt
//! transfer state machine, the retry controller with its backoff policy,
//! the concurrency limiter, batch aggregation, and the compressed artifact
//! codec. Network and file I/O live outside and drive these machines.

pub mod batch;
pub mod codec;
pub mod errors;
pub mod job;
pub mod limiter;
pub mod retry;
pub mod transfer;
