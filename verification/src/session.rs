use vstd::prelude::*;
use crate::config::Home;
use crate::messages::{FilePartitionSyncRequest, FrameSpec, StartMirrorRequest};

verus! {

/// One connection to the home peer, from the remote's point of view.
///
/// The session tracks what synchronization still owes the peer and, as a
/// ghost trace, every frame written on this connection's sink, oldest first.
/// The trace is what the ordering rules of the protocol are stated over:
/// a connection's first frame is its handshake, and records flow only after
/// it.
pub struct MirrorSession {
    /// Identifier under which this remote cluster is known at home.
    pub remote_cluster_id: String,
    /// Replica key of the mirrored leader replica.
    pub remote_replica: String,
    /// Whether the handshake frame has been written on this connection.
    pub handshake_sent: bool,
    /// Coalescing flag: the home's copy is stale and owes a refresh.
    pub home_update_needed: bool,
    /// Everything written to the sink on this connection, oldest first.
    pub sent: Ghost<Seq<FrameSpec>>,
}

impl MirrorSession {
    /// The ordering rules every reachable session satisfies.
    pub open spec fn inv(&self) -> bool {
        &&& (!self.handshake_sent ==> self.sent@.len() == 0)
        &&& (self.handshake_sent ==> self.sent@.len() > 0)
        &&& (self.sent@.len() > 0 ==> self.handshake_sent && self.sent@[0] == (FrameSpec::Start {
            remote_cluster_id: self.remote_cluster_id@,
            remote_replica: self.remote_replica@,
        }))
        &&& (forall|i: int|
            1 <= i < self.sent@.len() ==> (#[trigger] self.sent@[i]) matches FrameSpec::Sync {
                ..
            })
    }

    /// A fresh session for a new connection: nothing sent yet, no update
    /// owed until an event says so.
    pub fn new(home: &Home, replica_id: &String) -> (r: Self)
        ensures
            r.remote_cluster_id@ == home.remote_id@,
            r.remote_replica@ == replica_id@,
            !r.handshake_sent,
            !r.home_update_needed,
            r.sent@ =~= Seq::<FrameSpec>::empty(),
            r.inv(),
    {
        MirrorSession {
            remote_cluster_id: home.remote_id.clone(),
            remote_replica: replica_id.clone(),
            handshake_sent: false,
            home_update_needed: false,
            sent: Ghost(Seq::empty()),
        }
    }

    /// Build the handshake frame and record it as this connection's first
    /// outbound frame.  The caller writes it to the sink before anything
    /// else.
    pub fn start_mirror_request(&mut self) -> (r: StartMirrorRequest)
        requires
            !old(self).handshake_sent,
            old(self).inv(),
        ensures
            r.remote_cluster_id@ == old(self).remote_cluster_id@,
            r.remote_replica@ == old(self).remote_replica@,
            final(self).handshake_sent,
            final(self).sent@ =~= old(self).sent@.push(r@),
            final(self).remote_cluster_id == old(self).remote_cluster_id,
            final(self).remote_replica == old(self).remote_replica,
            final(self).home_update_needed == old(self).home_update_needed,
            final(self).inv(),
    {
        let r = StartMirrorRequest {
            remote_cluster_id: self.remote_cluster_id.clone(),
            remote_replica: self.remote_replica.clone(),
        };
        self.handshake_sent = true;
        proof {
            self.sent@ = self.sent@.push(r@);
        }
        r
    }

    /// Record a record batch written on this connection's sink.
    pub fn record_sync_sent(&mut self, frame: &FilePartitionSyncRequest)
        requires
            old(self).handshake_sent,
            old(self).inv(),
        ensures
            final(self).sent@ =~= old(self).sent@.push(frame@),
            final(self).handshake_sent,
            final(self).remote_cluster_id == old(self).remote_cluster_id,
            final(self).remote_replica == old(self).remote_replica,
            final(self).home_update_needed == old(self).home_update_needed,
            final(self).inv(),
    {
        proof {
            self.sent@ = self.sent@.push(frame@);
        }
    }

    /// Note that the home's copy is up to date again.
    pub fn mark_updated(&mut self)
        requires
            old(self).inv(),
        ensures
            *final(self) == (MirrorSession { home_update_needed: false, ..*old(self) }),
            final(self).inv(),
    {
        self.home_update_needed = false;
    }

    /// Note that the home's copy went stale: a leader offset change or a
    /// home report says records are owed.
    pub fn mark_update_needed(&mut self, needed: bool)
        requires
            old(self).inv(),
        ensures
            *final(self) == (MirrorSession { home_update_needed: needed, ..*old(self) }),
            final(self).inv(),
    {
        self.home_update_needed = needed;
    }
}

/// On every connection whose session keeps the ordering rules, the first
/// outbound frame is the handshake naming this very mirror relationship:
/// its `remote_cluster_id` and `remote_replica` match the session's.
pub proof fn lemma_first_frame_is_handshake(s: MirrorSession)
    requires
        s.inv(),
        s.sent@.len() > 0,
    ensures
        s.sent@[0] == (FrameSpec::Start {
            remote_cluster_id: s.remote_cluster_id@,
            remote_replica: s.remote_replica@,
        }),
        forall|i: int|
            1 <= i < s.sent@.len() ==> (#[trigger] s.sent@[i]) matches FrameSpec::Sync { .. },
{
}

} // verus!
