//! Live measurement engine for a network speed test.
//!
//! The library holds the verified core of a throughput/latency measurement
//! server: the per-connection session state machine, the bounded push
//! channel the results ride on, the weighted online estimators, the
//! human-readable unit formatting, and the synthetic payload pool.
//! Transport plumbing (HTTP routing, async draining, timers) lives outside
//! and drives this core through plain values.

mod channel;
mod estimator;
mod format;
mod pool;
mod registry;
mod session;

pub use channel::{PushChannel, DEFAULT_CHANNEL_CAPACITY};
pub use estimator::{calculate_bandwidth_weight, calculate_bps, latency_sample, running_average_update};
pub use format::{bps_to_string, bytes_to_string, micros_to_string, upload_summary};
pub use pool::{
    next_chunk_size, PayloadPool, DEFAULT_PAYLOAD_BYTES, DEFAULT_PAYLOAD_HEIGHT,
    DEFAULT_PAYLOAD_WIDTH, DOWNLOAD_START_SIZE, DOWNLOAD_TEST_DURATION_SECS,
};
pub use registry::{FinalSnapshot, PollFrame, ProgressSnapshot, Registry};
pub use session::{ChunkStats, FinishOutcome, FrozenStats, Session, SessionState};
