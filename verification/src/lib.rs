use vstd::prelude::*;

pub mod backoff;
pub mod controller;
pub mod config;
pub mod messages;
pub mod session;
pub mod error;
pub mod hub;
pub mod index;
pub mod metrics;

verus! {

/// A position in an append-only log: one past the last record written.
pub type Offset = i64;

/// Sentinel meaning that an offset is not yet known.
pub const OFFSET_UNKNOWN: i64 = -1;

/// True of every offset value the controller stores: either the unknown
/// sentinel or a non-negative log position.
pub open spec fn valid_offset_slot(v: i64) -> bool {
    v >= -1
}

/// A leader replica's two log-end positions, read as one snapshot.
#[derive(Clone, Copy, Debug, PartialEq, Eq, Structural)]
pub struct OffsetInfo {
    /// Log-end offset: one past the last record in the log.
    pub leo: i64,
    /// High-watermark: the highest offset known durably committed.
    pub hw: i64,
}

impl OffsetInfo {
    /// Both positions are real log positions, and the watermark never runs
    /// past the log end.
    pub open spec fn wf(&self) -> bool {
        0 <= self.hw <= self.leo
    }
}

} // verus!
