use vstd::prelude::*;

verus! {

/// Per-connection failures of the mirror controller.  None of them is
/// surfaced to a caller of the library's driver: each one tears the current
/// connection down and the supervisor reconnects after a backoff.
#[derive(Clone, Debug, PartialEq, Eq)]
pub enum MirrorError {
    /// The home cluster reported a log-end offset beyond the leader's: the
    /// mirror is one-directional, so the home may never be ahead.
    HomeAheadOfLeader { home_leo: i64, leader_leo: i64 },
    /// An inbound frame could not be decoded.
    DecodeFailed,
    /// The bounded read from the local durable log failed.
    ReadFailed,
    /// A write on the socket sink failed.
    SendFailed,
}

impl MirrorError {
    /// Short operator-readable description of the failure.
    pub fn describe(&self) -> (r: &'static str) {
        match self {
            MirrorError::HomeAheadOfLeader { .. } => "home's leo is ahead of the leader's leo",
            MirrorError::DecodeFailed => "malformed frame from home",
            MirrorError::ReadFailed => "error reading records from the local log",
            MirrorError::SendFailed => "error writing to the home socket",
        }
    }
}

} // verus!
