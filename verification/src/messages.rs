use vstd::prelude::*;

verus! {

/// First frame of every fresh connection: the remote announces which mirror
/// relationship the connection serves.
#[derive(Clone, Debug, PartialEq, Eq)]
pub struct StartMirrorRequest {
    /// Identifier under which this remote cluster is known at home.
    pub remote_cluster_id: String,
    /// Replica key of the leader replica being mirrored.
    pub remote_replica: String,
}

/// Sent by home to remote, at least once per connection and periodically
/// thereafter: home's current log-end offset.
#[derive(Clone, Copy, Debug, PartialEq, Eq, Structural)]
pub struct UpdateHomeOffsetRequest {
    pub leo: i64,
}

/// A batch of records pushed from remote to home, starting at the home's
/// last reported log-end offset.  `records` may be empty when only the
/// offsets are being refreshed.
#[derive(Clone, Debug, PartialEq, Eq)]
pub struct FilePartitionSyncRequest {
    /// Leader log-end offset at the time the batch was read.
    pub leo: i64,
    /// Leader high-watermark at the time the batch was read.
    pub hw: i64,
    /// Raw bytes of the record range, as read from the local log.
    pub records: Vec<u8>,
}

/// Mathematical shape of one outbound frame, used by the session's ghost
/// trace of everything written to the home socket.
pub enum FrameSpec {
    Start { remote_cluster_id: Seq<char>, remote_replica: Seq<char> },
    Sync { leo: i64, hw: i64, records: Seq<u8> },
}

impl View for StartMirrorRequest {
    type V = FrameSpec;

    open spec fn view(&self) -> FrameSpec {
        FrameSpec::Start {
            remote_cluster_id: self.remote_cluster_id@,
            remote_replica: self.remote_replica@,
        }
    }
}

impl View for FilePartitionSyncRequest {
    type V = FrameSpec;

    open spec fn view(&self) -> FrameSpec {
        FrameSpec::Sync { leo: self.leo, hw: self.hw, records: self.records@ }
    }
}

} // verus!
