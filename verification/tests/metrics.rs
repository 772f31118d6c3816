use mirror_remote::metrics::MirrorControllerState;

#[test]
fn fresh_state_has_unknown_home_leo_and_zero_counters() {
    let state = MirrorControllerState::new();
    let metrics = state.get_metrics();
    assert_eq!(metrics.get_loop_count(), 0);
    assert_eq!(metrics.get_conn_count(), 0);
    assert_eq!(metrics.get_conn_failure(), 0);
    assert_eq!(metrics.get_home_leo(), -1);
}

#[test]
fn counters_count_and_gauge_follows_reports() {
    let mut state = MirrorControllerState::new();
    state.metrics_mut().increase_loop_count();
    state.metrics_mut().increase_loop_count();
    state.metrics_mut().increase_conn_count();
    state.metrics_mut().increase_conn_failure();
    state.metrics_mut().update_home_leo(7);
    let metrics = state.get_metrics();
    assert_eq!(metrics.get_loop_count(), 2);
    assert_eq!(metrics.get_conn_count(), 1);
    assert_eq!(metrics.get_conn_failure(), 1);
    assert_eq!(metrics.get_home_leo(), 7);
}
