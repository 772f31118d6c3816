use mirror_remote::OffsetInfo;
use mirror_remote::config::{
    Home, Isolation, MirrorRegistry, MirrorRegistryEntry, MirrorSpec, MirrorType, Remote,
    RemotePartitionConfig,
};
use mirror_remote::controller::{
    MirrorRemoteToHomeController, SupervisorStep, SyncEvent, SyncOutcome, SyncPlan,
    CLUSTER_LOOKUP_SEC,
};
use mirror_remote::backoff::create_backoff;
use mirror_remote::error::MirrorError;
use mirror_remote::messages::UpdateHomeOffsetRequest;
use mirror_remote::session::MirrorSession;

fn test_controller() -> MirrorRemoteToHomeController {
    MirrorRemoteToHomeController::new(
        RemotePartitionConfig {
            home_cluster: "edge1".to_string(),
            home_spu_endpoint: "localhost:9010".to_string(),
            home_spu_id: 5001,
        },
        "temp-0".to_string(),
        Isolation::ReadUncommitted,
        1024,
    )
}

fn test_home() -> Home {
    Home {
        id: "edge1".to_string(),
        remote_id: "edge1".to_string(),
    }
}

fn started_session(ctrl: &MirrorRemoteToHomeController) -> MirrorSession {
    let mut session = MirrorSession::new(&test_home(), &ctrl.replica_id);
    let start = session.start_mirror_request();
    assert_eq!(start.remote_cluster_id, "edge1");
    assert_eq!(start.remote_replica, "temp-0");
    session
}

#[test]
fn handshake_is_first_frame() {
    let ctrl = test_controller();
    let mut session = MirrorSession::new(&test_home(), &ctrl.replica_id);
    assert!(!session.handshake_sent);
    let start = session.start_mirror_request();
    assert_eq!(start.remote_cluster_id, "edge1");
    assert_eq!(start.remote_replica, "temp-0");
    assert!(session.handshake_sent);
}

#[test]
fn bootstrap_catch_up() {
    let mut ctrl = test_controller();
    let mut session = started_session(&ctrl);
    assert_eq!(ctrl.state.get_metrics().get_home_leo(), -1);

    // Home reports leo 0 while the leader is at 2: records are owed.
    let outcome = ctrl.handle_event(
        &mut session,
        2,
        SyncEvent::HomeRequest(UpdateHomeOffsetRequest { leo: 0 }),
    );
    assert_eq!(outcome, SyncOutcome::Continue);
    assert!(session.home_update_needed);
    assert_eq!(ctrl.state.get_metrics().get_home_leo(), 0);

    // The refresh covers offsets 0..2 of the local log.
    let plan = ctrl.generate_home_sync_plan(2, 0).unwrap();
    assert_eq!(
        plan,
        SyncPlan::Fetch {
            start_offset: 0,
            max_bytes: 1024
        }
    );
    let bytes = vec![10u8, 11, 12, 13];
    let frame = ctrl
        .update_home(
            &mut session,
            OffsetInfo { leo: 2, hw: 2 },
            0,
            Some(bytes.clone()),
        )
        .unwrap()
        .unwrap();
    assert_eq!(frame.leo, 2);
    assert_eq!(frame.hw, 2);
    assert_eq!(frame.records, bytes);
    assert!(!session.home_update_needed);

    // Home acknowledges with leo 2: caught up, nothing more owed.  A report
    // equal to the leader's log end leaves the stored gauge alone.
    let outcome = ctrl.handle_event(
        &mut session,
        2,
        SyncEvent::HomeRequest(UpdateHomeOffsetRequest { leo: 2 }),
    );
    assert_eq!(outcome, SyncOutcome::Continue);
    assert!(!session.home_update_needed);
    assert_eq!(ctrl.state.get_metrics().get_home_leo(), 0);
}

#[test]
fn steady_state_no_new_writes() {
    let mut ctrl = test_controller();
    let mut session = started_session(&ctrl);

    // First report of the lifetime lands unconditionally, even when equal.
    let outcome = ctrl.handle_event(
        &mut session,
        5,
        SyncEvent::HomeRequest(UpdateHomeOffsetRequest { leo: 5 }),
    );
    assert_eq!(outcome, SyncOutcome::Continue);
    assert_eq!(ctrl.state.get_metrics().get_home_leo(), 5);
    assert!(!session.home_update_needed);

    // No outbound sync is generated while the two log ends agree.
    let plan = ctrl.generate_home_sync_plan(5, 5).unwrap();
    assert_eq!(plan, SyncPlan::AlreadySynced);
    let sent = ctrl
        .update_home(&mut session, OffsetInfo { leo: 5, hw: 5 }, 5, None)
        .unwrap();
    assert!(sent.is_none());
}

#[test]
fn new_write_wakes_the_loop() {
    let mut ctrl = test_controller();
    let mut session = started_session(&ctrl);
    ctrl.handle_event(
        &mut session,
        5,
        SyncEvent::HomeRequest(UpdateHomeOffsetRequest { leo: 5 }),
    );
    assert_eq!(ctrl.state.get_metrics().get_home_leo(), 5);

    // The leader moves 5 -> 7 and the offset listener fires.
    let outcome = ctrl.handle_event(&mut session, 7, SyncEvent::LeaderOffsetChange);
    assert_eq!(outcome, SyncOutcome::Continue);
    assert!(session.home_update_needed);

    let plan = ctrl.generate_home_sync_plan(7, 5).unwrap();
    assert_eq!(
        plan,
        SyncPlan::Fetch {
            start_offset: 5,
            max_bytes: 1024
        }
    );
    let bytes = vec![50u8, 51];
    let frame = ctrl
        .update_home(
            &mut session,
            OffsetInfo { leo: 7, hw: 6 },
            5,
            Some(bytes.clone()),
        )
        .unwrap()
        .unwrap();
    assert_eq!(frame.leo, 7);
    assert_eq!(frame.hw, 6);
    assert_eq!(frame.records, bytes);
    assert!(!session.home_update_needed);
}

#[test]
fn home_ahead_is_fatal() {
    let mut ctrl = test_controller();
    let mut session = started_session(&ctrl);

    let outcome = ctrl.handle_event(
        &mut session,
        4,
        SyncEvent::HomeRequest(UpdateHomeOffsetRequest { leo: 9 }),
    );
    assert_eq!(
        outcome,
        SyncOutcome::Fatal(MirrorError::HomeAheadOfLeader {
            home_leo: 9,
            leader_leo: 4
        })
    );

    // The supervisor backs off and counts the failure, then reconnects.
    let mut backoff = create_backoff();
    let failures_before = ctrl.state.get_metrics().get_conn_failure();
    let delay = ctrl.backoff_and_wait(&mut backoff);
    assert!((1000..=300_000).contains(&delay));
    assert_eq!(
        ctrl.state.get_metrics().get_conn_failure(),
        failures_before + 1
    );

    // A fresh connection proceeds normally.
    let mut session2 = MirrorSession::new(&test_home(), &ctrl.replica_id);
    let start = session2.start_mirror_request();
    assert_eq!(start.remote_cluster_id, "edge1");
}

#[test]
fn sync_plan_rejects_home_ahead() {
    let ctrl = test_controller();
    let err = ctrl.generate_home_sync_plan(4, 9).unwrap_err();
    assert_eq!(
        err,
        MirrorError::HomeAheadOfLeader {
            home_leo: 9,
            leader_leo: 4
        }
    );
}

#[test]
fn decode_failure_is_fatal() {
    let mut ctrl = test_controller();
    let mut session = started_session(&ctrl);
    let outcome = ctrl.handle_event(&mut session, 3, SyncEvent::DecodeFailure);
    assert_eq!(outcome, SyncOutcome::Fatal(MirrorError::DecodeFailed));
}

#[test]
fn reconnect_after_stream_close() {
    let mut ctrl = test_controller();
    let mut session = started_session(&ctrl);

    let outcome = ctrl.handle_event(&mut session, 3, SyncEvent::StreamEnd);
    assert_eq!(outcome, SyncOutcome::SessionClosed);

    // The supervisor sleeps the backoff delay, then resumes at lookup;
    // each fresh outer iteration bumps the loop count.
    let mut backoff = create_backoff();
    let first_delay = ctrl.backoff_and_wait(&mut backoff);
    assert_eq!(first_delay, 2000);
    assert_eq!(ctrl.state.get_metrics().get_loop_count(), 0);
    let step = ctrl.on_lookup(&Some(test_home()));
    assert_eq!(step, SupervisorStep::Connect);
    assert_eq!(ctrl.state.get_metrics().get_loop_count(), 1);
    let step = ctrl.on_lookup(&Some(test_home()));
    assert_eq!(step, SupervisorStep::Connect);
    assert_eq!(ctrl.state.get_metrics().get_loop_count(), 2);
}

#[test]
fn lookup_miss_then_success() {
    let mut ctrl = test_controller();
    let mut registry = MirrorRegistry::new();

    // Two polls against an empty registry miss and wait.
    for _ in 0..2 {
        let found = ctrl.find_home_cluster(&registry);
        assert!(found.is_none());
        let step = ctrl.on_lookup(&found);
        assert_eq!(
            step,
            SupervisorStep::SleepForLookup {
                secs: CLUSTER_LOOKUP_SEC
            }
        );
    }

    // On the third poll the registry holds the home descriptor.
    registry.entries.push(MirrorRegistryEntry {
        name: "edge1".to_string(),
        spec: MirrorSpec {
            mirror_type: MirrorType::Home(Home {
                id: "home1".to_string(),
                remote_id: "edge1".to_string(),
            }),
        },
    });
    let found = ctrl.find_home_cluster(&registry);
    let home = found.clone().unwrap();
    assert_eq!(home.remote_id, "edge1");
    let step = ctrl.on_lookup(&found);
    assert_eq!(step, SupervisorStep::Connect);
}

#[test]
fn lookup_ignores_remote_entries_and_other_names() {
    let ctrl = test_controller();
    let mut registry = MirrorRegistry::new();
    registry.entries.push(MirrorRegistryEntry {
        name: "edge2".to_string(),
        spec: MirrorSpec {
            mirror_type: MirrorType::Home(Home {
                id: "home1".to_string(),
                remote_id: "edge2".to_string(),
            }),
        },
    });
    assert!(ctrl.find_home_cluster(&registry).is_none());

    registry.entries.insert(
        0,
        MirrorRegistryEntry {
            name: "edge1".to_string(),
            spec: MirrorSpec {
                mirror_type: MirrorType::Remote(Remote {
                    id: "edge1".to_string(),
                }),
            },
        },
    );
    assert!(ctrl.find_home_cluster(&registry).is_none());
}

#[test]
fn connect_attempts_are_counted_and_backed_off() {
    let mut ctrl = test_controller();
    let mut backoff = create_backoff();

    let retry = ctrl.on_connect_attempt(&mut backoff, &test_home(), false);
    let delay = retry.unwrap();
    assert!((1000..=300_000).contains(&delay));
    assert_eq!(ctrl.state.get_metrics().get_conn_count(), 1);
    assert_eq!(ctrl.state.get_metrics().get_conn_failure(), 1);

    let done = ctrl.on_connect_attempt(&mut backoff, &test_home(), true);
    assert!(done.is_none());
    assert_eq!(ctrl.state.get_metrics().get_conn_count(), 2);
    assert_eq!(ctrl.state.get_metrics().get_conn_failure(), 1);
}

#[test]
fn backoff_delays_grow_and_stay_bounded() {
    let mut ctrl = test_controller();
    let mut backoff = create_backoff();
    let mut last = 0u64;
    for _ in 0..12 {
        let delay = ctrl.backoff_and_wait(&mut backoff);
        assert!((1000..=300_000).contains(&delay));
        assert!(delay >= last.min(300_000));
        last = delay;
    }
    // By now the exponential steps have hit the 300 s cap.
    assert_eq!(last, 300_000);
}

#[test]
fn controller_describes_its_mirror_relationship() {
    let ctrl = test_controller();
    assert_eq!(ctrl.describe(), "MirrorRemote temp-0->edge1");
}

#[test]
fn error_descriptions() {
    assert!(MirrorError::HomeAheadOfLeader {
        home_leo: 2,
        leader_leo: 1
    }
    .describe()
    .contains("ahead"));
    assert!(MirrorError::DecodeFailed.describe().contains("frame"));
    assert!(MirrorError::ReadFailed.describe().contains("read"));
    assert!(MirrorError::SendFailed.describe().contains("writ"));
}
