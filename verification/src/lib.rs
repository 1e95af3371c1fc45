//! Windowed aggregation core of a profiling agent.
//!
//! Decoded scheduling and latency samples are merged into per-thread sliding
//! windows of one-second buckets; a flush selector periodically hands the
//! non-empty buckets to an external sink.

use vstd::prelude::*;

pub mod circle_queue;
pub mod cpu_analyzer;
pub mod event;
pub mod laws;
pub mod model;
pub mod time_event;

verus! {

/// Nanoseconds in one second; timestamps arrive in nanoseconds and are
/// bucketed by whole seconds.
pub const NANO_TO_SECONDS: u64 = 1_000_000_000;

/// Number of one-second buckets in every window.
pub const MAX_SEGMENT_SIZE: usize = 40;

/// The largest anchor second for which every bucket boundary of a window,
/// `(anchor + MAX_SEGMENT_SIZE) * NANO_TO_SECONDS` at most, still fits in
/// `u64` nanoseconds.
pub const MAX_BASE_TIME_SEC: u64 = 18_446_744_033;

} // verus!
