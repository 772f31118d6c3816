use vstd::prelude::*;
use vstd::string::StringExecFns;
use adaptive_backoff::prelude::ExponentialBackoff;
use crate::backoff::{backoff_min_ms, backoff_max_ms, backoff_wait_ms};
use crate::config::{Home, Isolation, MirrorRegistry, RemotePartitionConfig, spec_lookup_home};
use crate::error::MirrorError;
use crate::messages::{FilePartitionSyncRequest, FrameSpec, UpdateHomeOffsetRequest};
use crate::metrics::MirrorControllerState;
use crate::session::MirrorSession;
use crate::{Offset, OffsetInfo};

verus! {

/// Seconds the supervisor sleeps before each registry lookup retry, and once
/// before its very first lookup.
pub const CLUSTER_LOOKUP_SEC: u64 = 5;

/// What one home report does to the stored home log-end offset: a first
/// report lands unconditionally; afterwards a report strictly below the
/// leader's log end replaces the stored value, and any other report leaves
/// it as it was.
pub open spec fn spec_home_leo_after(old_home_leo: i64, new_home_leo: i64, leader_leo: i64) -> i64 {
    let booted = if old_home_leo < 0 {
        new_home_leo
    } else {
        old_home_leo
    };
    if new_home_leo < leader_leo {
        new_home_leo
    } else {
        booted
    }
}

/// What one home report decides: a report beyond the leader's log end is a
/// fatal per-connection error; one below it means the home owes records;
/// one equal to it means the home is caught up.
pub open spec fn spec_update_from_home_result(new_home_leo: i64, leader_leo: i64) -> Result<
    bool,
    MirrorError,
> {
    if new_home_leo > leader_leo {
        Err(MirrorError::HomeAheadOfLeader { home_leo: new_home_leo, leader_leo })
    } else {
        Ok(new_home_leo < leader_leo)
    }
}

/// How a stale home is refreshed, decided from the two log ends alone.
#[derive(Clone, Copy, Debug, PartialEq, Eq, Structural)]
pub enum SyncPlan {
    /// The home already holds every record: nothing is owed.
    AlreadySynced,
    /// Read at most `max_bytes` bytes of records from the local log,
    /// starting at `start_offset`, and push them to the home.
    Fetch { start_offset: i64, max_bytes: u32 },
}

/// The refresh decision: equal log ends need no work, a leader ahead of the
/// home is filled from the home's own log end on, and a home ahead of the
/// leader is a fatal per-connection error.
pub open spec fn spec_sync_plan(leader_leo: i64, home_leo: i64, max_bytes: u32) -> Result<
    SyncPlan,
    MirrorError,
> {
    if leader_leo == home_leo {
        Ok(SyncPlan::AlreadySynced)
    } else if leader_leo > home_leo {
        Ok(SyncPlan::Fetch { start_offset: home_leo, max_bytes })
    } else {
        Err(MirrorError::HomeAheadOfLeader { home_leo, leader_leo })
    }
}

/// What a record batch built from a leader snapshot and a finished read
/// carries on the wire.
pub open spec fn spec_sync_frame(leader: OffsetInfo, records: Seq<u8>) -> FrameSpec {
    FrameSpec::Sync { leo: leader.leo, hw: leader.hw, records }
}

/// The events the sync loop multiplexes: exactly one wakes it per iteration.
#[derive(Clone, Copy, Debug, PartialEq, Eq, Structural)]
pub enum SyncEvent {
    /// The leader-offset listener fired: new records were appended locally.
    LeaderOffsetChange,
    /// A decoded frame from home arrived.
    HomeRequest(UpdateHomeOffsetRequest),
    /// The home closed the connection.
    StreamEnd,
    /// An inbound frame could not be decoded.
    DecodeFailure,
}

/// What the driver does after one sync-loop event.
#[derive(Clone, Debug, PartialEq, Eq)]
pub enum SyncOutcome {
    /// Keep the connection and wait for the next event.
    Continue,
    /// The home closed the stream: back off, then leave the sync loop
    /// without an error and start over at lookup.
    SessionClosed,
    /// A fatal per-connection error: drop the connection, back off,
    /// reconnect.
    Fatal(MirrorError),
}

/// What the supervisor does after one registry lookup.
#[derive(Clone, Copy, Debug, PartialEq, Eq, Structural)]
pub enum SupervisorStep {
    /// No home descriptor yet: sleep this many seconds and look again.
    SleepForLookup { secs: u64 },
    /// A home was found: connect and enter the sync loop.
    Connect,
}

/// The remote-to-home mirror controller for one replica.
///
/// It decides every step of the mirror protocol — handshake, offset
/// bookkeeping, record-range generation, reconnect policy — from plain
/// values.  The surrounding process performs the waiting, connecting,
/// reading and writing those decisions call for, and feeds the outcomes
/// back in as events.
#[derive(Debug)]
pub struct MirrorRemoteToHomeController {
    /// Static configuration of the mirrored replica.
    pub remote_config: RemotePartitionConfig,
    /// Replica key of the local leader, echoed in every handshake.
    pub replica_id: String,
    /// Shared counters and the home log-end gauge.
    pub state: MirrorControllerState,
    /// Byte cap of one record batch.
    pub max_bytes: u32,
    /// Whether the offset listener follows the high-watermark or the log
    /// end.
    pub isolation: Isolation,
}

impl MirrorRemoteToHomeController {
    pub open spec fn wf(&self) -> bool {
        self.state.wf()
    }

    /// Fields of the controller other than its metrics never change.
    pub open spec fn config_unchanged(pre: Self, post: Self) -> bool {
        &&& post.remote_config == pre.remote_config
        &&& post.replica_id == pre.replica_id
        &&& post.max_bytes == pre.max_bytes
        &&& post.isolation == pre.isolation
    }

    /// A controller for one replica, with all counters at zero and the home
    /// log-end offset unknown.
    pub fn new(
        remote_config: RemotePartitionConfig,
        replica_id: String,
        isolation: Isolation,
        max_bytes: u32,
    ) -> (r: Self)
        ensures
            r.remote_config == remote_config,
            r.replica_id == replica_id,
            r.isolation == isolation,
            r.max_bytes == max_bytes,
            r.state.metrics.loop_count == 0,
            r.state.metrics.connect_count == 0,
            r.state.metrics.connect_failure == 0,
            r.state.metrics.home_leo == crate::OFFSET_UNKNOWN,
            r.wf(),
    {
        MirrorRemoteToHomeController {
            remote_config,
            replica_id,
            state: MirrorControllerState::new(),
            max_bytes,
            isolation,
        }
    }

    /// The controller's name in operator logs: the mirrored replica and the
    /// home cluster it pushes to.
    pub fn describe(&self) -> (r: String)
        ensures
            r@ == "MirrorRemote "@ + self.replica_id@ + "->"@
                + self.remote_config.home_cluster@,
    {
        let mut s = String::from_str("MirrorRemote ");
        s.append(self.replica_id.as_str());
        s.append("->");
        s.append(self.remote_config.home_cluster.as_str());
        s
    }

    /// Look the home cluster up in the local mirror registry.  The registry
    /// may not hold it yet right after startup: the supervisor tolerates
    /// `None` and polls.
    pub fn find_home_cluster(&self, registry: &MirrorRegistry) -> (r: Option<Home>)
        ensures
            r == spec_lookup_home(registry.entries@, self.remote_config.home_cluster@),
    {
        let ghost full = registry.entries@;
        let ghost cluster = self.remote_config.home_cluster@;
        let n = registry.entries.len();
        let mut i: usize = 0;
        proof {
            assert(full.skip(0) =~= full);
        }
        while i < n
            invariant
                n == full.len(),
                0 <= i <= n,
                registry.entries@ == full,
                cluster == self.remote_config.home_cluster@,
                spec_lookup_home(full, cluster) == spec_lookup_home(full.skip(i as int), cluster),
            decreases n - i,
        {
            let entry = &registry.entries[i];
            proof {
                assert(full.skip(i as int)[0] == full[i as int]);
            }
            if entry.name == self.remote_config.home_cluster {
                match &entry.spec.mirror_type {
                    crate::config::MirrorType::Home(h) => {
                        let found = Home { id: h.id.clone(), remote_id: h.remote_id.clone() };
                        assert(found == full[i as int].spec.mirror_type->Home_0);
                        return Some(found);
                    },
                    crate::config::MirrorType::Remote(_) => {
                        return None;
                    },
                }
            }
            proof {
                assert(full.skip(i as int).skip(1) =~= full.skip(i as int + 1));
            }
            i += 1;
        }
        proof {
            assert(full.skip(n as int) =~= Seq::<crate::config::MirrorRegistryEntry>::empty());
        }
        None
    }

    /// One supervisor decision after a lookup: a found home starts a fresh
    /// outer iteration — counted in `loop_count` — and is connected to; a
    /// miss is waited out and retried.
    pub fn on_lookup(&mut self, found: &Option<Home>) -> (r: SupervisorStep)
        requires
            old(self).wf(),
        ensures
            Self::config_unchanged(*old(self), *final(self)),
            final(self).wf(),
            final(self).state.metrics.connect_count == old(self).state.metrics.connect_count,
            final(self).state.metrics.connect_failure == old(self).state.metrics.connect_failure,
            final(self).state.metrics.home_leo == old(self).state.metrics.home_leo,
            found matches Some(_) ==> r == SupervisorStep::Connect && final(self).state.metrics.loop_count == vstd::wrapping::u64_specs::wrapping_add(
                old(self).state.metrics.loop_count,
                1,
            ),
            found is None ==> r == (SupervisorStep::SleepForLookup { secs: CLUSTER_LOOKUP_SEC })
                && final(self).state.metrics.loop_count == old(self).state.metrics.loop_count,
    {
        match found {
            Some(_) => {
                self.state.metrics_mut().increase_loop_count();
                SupervisorStep::Connect
            },
            None => SupervisorStep::SleepForLookup { secs: CLUSTER_LOOKUP_SEC },
        }
    }

    /// One connect attempt's bookkeeping: every attempt is counted; a failed
    /// one is also counted as a failure and answered with the next backoff
    /// delay, in milliseconds, to sleep before retrying.  Connecting itself
    /// never gives up.  The home descriptor is carried for the operator's
    /// benefit only: the endpoint dialed is the configured one.
    pub fn on_connect_attempt(
        &mut self,
        backoff: &mut ExponentialBackoff,
        _home: &Home,
        connected: bool,
    ) -> (r: Option<u64>)
        requires
            old(self).wf(),
        ensures
            Self::config_unchanged(*old(self), *final(self)),
            final(self).wf(),
            final(self).state.metrics.connect_count == vstd::wrapping::u64_specs::wrapping_add(
                old(self).state.metrics.connect_count,
                1,
            ),
            final(self).state.metrics.loop_count == old(self).state.metrics.loop_count,
            final(self).state.metrics.home_leo == old(self).state.metrics.home_leo,
            backoff_min_ms(*final(backoff)) == backoff_min_ms(*old(backoff)),
            backoff_max_ms(*final(backoff)) == backoff_max_ms(*old(backoff)),
            connected ==> r is None && final(self).state.metrics.connect_failure == old(self).state.metrics.connect_failure,
            !connected ==> (r matches Some(delay) && final(self).state.metrics.connect_failure
                == vstd::wrapping::u64_specs::wrapping_add(
                old(self).state.metrics.connect_failure,
                1,
            ) && (backoff_min_ms(*old(backoff)) <= backoff_max_ms(*old(backoff))
                ==> backoff_min_ms(*old(backoff)) <= delay <= backoff_max_ms(*old(backoff)))),
    {
        self.state.metrics_mut().increase_conn_count();
        if connected {
            None
        } else {
            Some(self.backoff_and_wait(backoff))
        }
    }

    /// Advance the backoff, count the failure, and hand back the delay, in
    /// milliseconds, the caller must sleep before its next try.
    pub fn backoff_and_wait(&mut self, backoff: &mut ExponentialBackoff) -> (r: u64)
        requires
            old(self).wf(),
        ensures
            Self::config_unchanged(*old(self), *final(self)),
            final(self).wf(),
            final(self).state.metrics.connect_failure == vstd::wrapping::u64_specs::wrapping_add(
                old(self).state.metrics.connect_failure,
                1,
            ),
            final(self).state.metrics.loop_count == old(self).state.metrics.loop_count,
            final(self).state.metrics.connect_count == old(self).state.metrics.connect_count,
            final(self).state.metrics.home_leo == old(self).state.metrics.home_leo,
            backoff_min_ms(*old(backoff)) <= backoff_max_ms(*old(backoff)) ==> backoff_min_ms(*old(backoff)) <= r <= backoff_max_ms(*old(backoff)),
            backoff_min_ms(*final(backoff)) == backoff_min_ms(*old(backoff)),
            backoff_max_ms(*final(backoff)) == backoff_max_ms(*old(backoff)),
    {
        let wait = backoff_wait_ms(backoff);
        self.state.metrics_mut().increase_conn_failure();
        wait
    }

    /// Take one offset report from home.  A first report of the process
    /// lifetime lands unconditionally; a report beyond the leader's log end
    /// is fatal; a report below it moves the gauge and says records are
    /// owed; a matching one says the home is caught up.
    pub fn update_from_home(&mut self, leader_leo: Offset, req: UpdateHomeOffsetRequest) -> (r:
        Result<bool, MirrorError>)
        requires
            old(self).wf(),
            leader_leo >= 0,
            req.leo >= 0,
        ensures
            Self::config_unchanged(*old(self), *final(self)),
            final(self).wf(),
            final(self).state.metrics.home_leo == spec_home_leo_after(
                old(self).state.metrics.home_leo,
                req.leo,
                leader_leo,
            ),
            r == spec_update_from_home_result(req.leo, leader_leo),
            final(self).state.metrics.loop_count == old(self).state.metrics.loop_count,
            final(self).state.metrics.connect_count == old(self).state.metrics.connect_count,
            final(self).state.metrics.connect_failure == old(self).state.metrics.connect_failure,
    {
        let old_home_leo = self.state.get_metrics().get_home_leo();
        let new_home_leo = req.leo;
        if old_home_leo < 0 {
            self.state.metrics_mut().update_home_leo(new_home_leo);
        }
        if new_home_leo > leader_leo {
            Err(MirrorError::HomeAheadOfLeader { home_leo: new_home_leo, leader_leo })
        } else if new_home_leo < leader_leo {
            self.state.metrics_mut().update_home_leo(new_home_leo);
            Ok(true)
        } else {
            Ok(false)
        }
    }

    /// Decide how to refresh the home, from the leader's and the home's log
    /// ends alone.
    pub fn generate_home_sync_plan(&self, leader_leo: Offset, home_leo: Offset) -> (r: Result<
        SyncPlan,
        MirrorError,
    >)
        requires
            leader_leo >= 0,
            home_leo >= 0,
        ensures
            r == spec_sync_plan(leader_leo, home_leo, self.max_bytes),
    {
        if leader_leo == home_leo {
            Ok(SyncPlan::AlreadySynced)
        } else if leader_leo > home_leo {
            Ok(SyncPlan::Fetch { start_offset: home_leo, max_bytes: self.max_bytes })
        } else {
            Err(MirrorError::HomeAheadOfLeader { home_leo, leader_leo })
        }
    }

    /// Refresh the home on this session, given the leader snapshot taken for
    /// this iteration and the bytes a `Fetch` plan's read produced (`None`
    /// stands for a read that found a plan unnecessary or returned no
    /// slice).  On success the owed-update flag is cleared; the one frame
    /// built, if any, is recorded on the session's trace for the caller to
    /// write.
    pub fn update_home(
        &self,
        session: &mut MirrorSession,
        leader: OffsetInfo,
        home_leo: Offset,
        records: Option<Vec<u8>>,
    ) -> (r: Result<Option<FilePartitionSyncRequest>, MirrorError>)
        requires
            old(session).inv(),
            old(session).handshake_sent,
            leader.wf(),
            home_leo >= 0,
        ensures
            final(session).inv(),
            final(session).handshake_sent,
            final(session).remote_cluster_id == old(session).remote_cluster_id,
            final(session).remote_replica == old(session).remote_replica,
            spec_sync_plan(leader.leo, home_leo, self.max_bytes) matches Err(e) ==> r == Err::<
                Option<FilePartitionSyncRequest>,
                MirrorError,
            >(e) && *final(session) == *old(session),
            spec_sync_plan(leader.leo, home_leo, self.max_bytes) == Ok::<SyncPlan, MirrorError>(
                SyncPlan::AlreadySynced,
            ) ==> r == Ok::<Option<FilePartitionSyncRequest>, MirrorError>(None) && final(session).sent@ == old(session).sent@ && !final(session).home_update_needed,
            spec_sync_plan(leader.leo, home_leo, self.max_bytes) matches Ok(
                SyncPlan::Fetch { start_offset, .. },
            ) ==> (r matches Ok(Some(f)) && f@ == spec_sync_frame(
                leader,
                match records {
                    Some(v) => v@,
                    None => Seq::<u8>::empty(),
                },
            ) && final(session).sent@ == old(session).sent@.push(f@) && !final(session).home_update_needed),
    {
        match self.generate_home_sync_plan(leader.leo, home_leo) {
            Err(e) => Err(e),
            Ok(SyncPlan::AlreadySynced) => {
                session.mark_updated();
                Ok(None)
            },
            Ok(SyncPlan::Fetch { .. }) => {
                let frame = FilePartitionSyncRequest {
                    leo: leader.leo,
                    hw: leader.hw,
                    records: match records {
                        Some(v) => v,
                        None => Vec::new(),
                    },
                };
                session.record_sync_sent(&frame);
                session.mark_updated();
                Ok(Some(frame))
            },
        }
    }

    /// Take the one event that woke this sync-loop iteration.  Leader
    /// changes and record-owing home reports raise the owed-update flag; a
    /// caught-up report lowers it; a stream end closes the session in an
    /// orderly way; a home ahead of the leader or an undecodable frame is
    /// fatal.  No frame is ever written here: the trace is unchanged.
    pub fn handle_event(
        &mut self,
        session: &mut MirrorSession,
        leader_leo: Offset,
        event: SyncEvent,
    ) -> (r: SyncOutcome)
        requires
            old(self).wf(),
            old(session).inv(),
            old(session).handshake_sent,
            leader_leo >= 0,
            event matches SyncEvent::HomeRequest(req) ==> req.leo >= 0,
        ensures
            Self::config_unchanged(*old(self), *final(self)),
            final(self).wf(),
            final(session).inv(),
            final(session).sent@ == old(session).sent@,
            final(session).handshake_sent,
            final(session).remote_cluster_id == old(session).remote_cluster_id,
            final(session).remote_replica == old(session).remote_replica,
            final(self).state.metrics.loop_count == old(self).state.metrics.loop_count,
            final(self).state.metrics.connect_failure == old(self).state.metrics.connect_failure,
            event == SyncEvent::LeaderOffsetChange ==> r == SyncOutcome::Continue && final(session).home_update_needed && final(self).state.metrics == old(self).state.metrics.spec_bump_conn(),
            event matches SyncEvent::HomeRequest(req) ==> {
                &&& final(self).state.metrics.home_leo == spec_home_leo_after(
                    old(self).state.metrics.home_leo,
                    req.leo,
                    leader_leo,
                )
                &&& (spec_update_from_home_result(req.leo, leader_leo) matches Ok(needed) ==> r
                    == SyncOutcome::Continue && final(session).home_update_needed == needed && final(self).state.metrics.connect_count == vstd::wrapping::u64_specs::wrapping_add(
                    old(self).state.metrics.connect_count,
                    1,
                ))
                &&& (spec_update_from_home_result(req.leo, leader_leo) matches Err(e) ==> r
                    == SyncOutcome::Fatal(e) && final(session).home_update_needed == old(session).home_update_needed && final(self).state.metrics.connect_count == old(self).state.metrics.connect_count)
            },
            event == SyncEvent::StreamEnd ==> r == SyncOutcome::SessionClosed && *final(session)
                == *old(session) && final(self).state.metrics == old(self).state.metrics,
            event == SyncEvent::DecodeFailure ==> r == SyncOutcome::Fatal(MirrorError::DecodeFailed)
                && *final(session) == *old(session) && final(self).state.metrics == old(self).state.metrics,
    {
        match event {
            SyncEvent::LeaderOffsetChange => {
                session.mark_update_needed(true);
                self.state.metrics_mut().increase_conn_count();
                SyncOutcome::Continue
            },
            SyncEvent::HomeRequest(req) => {
                match self.update_from_home(leader_leo, req) {
                    Ok(needed) => {
                        session.mark_update_needed(needed);
                        self.state.metrics_mut().increase_conn_count();
                        SyncOutcome::Continue
                    },
                    Err(e) => SyncOutcome::Fatal(e),
                }
            },
            SyncEvent::StreamEnd => SyncOutcome::SessionClosed,
            SyncEvent::DecodeFailure => SyncOutcome::Fatal(MirrorError::DecodeFailed),
        }
    }
}

/// A record batch never reaches outside the gap between the home's and the
/// leader's log ends.  A `Fetch` plan starts exactly at the home's reported
/// log end and is only made while the home is strictly behind; and however
/// many offsets `n` the bounded read then yields — the local log holds none
/// at or beyond `leader.leo` — the batch covers offsets in
/// `[home_leo, home_leo + n)`, which lies within `[home_leo, leader.leo)`.
/// The frame itself carries the leader snapshot taken at read time.
pub proof fn lemma_sync_request_covers_gap(
    leader: OffsetInfo,
    home_leo: i64,
    max_bytes: u32,
    n: int,
    records: Seq<u8>,
)
    requires
        leader.wf(),
        0 <= home_leo,
        spec_sync_plan(leader.leo, home_leo, max_bytes) matches Ok(SyncPlan::Fetch { .. }),
        0 <= n <= leader.leo - home_leo,
    ensures
        spec_sync_plan(leader.leo, home_leo, max_bytes) == Ok::<SyncPlan, MirrorError>(
            SyncPlan::Fetch { start_offset: home_leo, max_bytes },
        ),
        home_leo < leader.leo,
        home_leo + n <= leader.leo,
        spec_sync_frame(leader, records) == (FrameSpec::Sync {
            leo: leader.leo,
            hw: leader.hw,
            records,
        }),
{
}

/// Within one process lifetime the stored home log-end gauge never
/// decreases, provided the home's reports never regress — each report is at
/// least the value last stored, as an append-only home log guarantees.
/// Only `update_from_home` moves the gauge, and it moves it to
/// `spec_home_leo_after`.
pub proof fn lemma_home_leo_monotonic(old_home_leo: i64, new_home_leo: i64, leader_leo: i64)
    requires
        crate::valid_offset_slot(old_home_leo),
        new_home_leo >= 0,
        old_home_leo >= 0 ==> new_home_leo >= old_home_leo,
    ensures
        spec_home_leo_after(old_home_leo, new_home_leo, leader_leo) >= old_home_leo,
{
}

/// A caught-up home is owed nothing: when the leader's and the home's log
/// ends agree, the refresh decision is `AlreadySynced`, so `update_home`
/// frames and records no batch until a further event moves one of the two
/// ends.
pub proof fn lemma_caught_up_sends_nothing(leader_leo: i64, max_bytes: u32)
    ensures
        spec_sync_plan(leader_leo, leader_leo, max_bytes) == Ok::<SyncPlan, MirrorError>(
            SyncPlan::AlreadySynced,
        ),
{
}

/// A home report beyond the leader's log end is fatal: the report's only
/// answer is the `HomeAheadOfLeader` error — on which `handle_event` leaves
/// the outbound trace untouched and the driver drops the connection and
/// reconnects — never a record batch.
pub proof fn lemma_home_ahead_is_fatal(new_home_leo: i64, leader_leo: i64)
    requires
        new_home_leo > leader_leo,
    ensures
        spec_update_from_home_result(new_home_leo, leader_leo) == Err::<bool, MirrorError>(
            MirrorError::HomeAheadOfLeader { home_leo: new_home_leo, leader_leo },
        ),
{
}

} // verus!
