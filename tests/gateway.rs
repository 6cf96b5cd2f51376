use openclawini::gateway::{
    stop_wait_action, webchat_url, ChildWait, GatewayRuntime, GatewayState, HealthMonitor,
    ProcessObservation, ReadinessWatch, StopAction, DEFAULT_GATEWAY_PORT, READINESS_ATTEMPTS,
};

fn running_gateway() -> GatewayRuntime {
    let mut rt = GatewayRuntime::new();
    rt.begin_start(4000).unwrap();
    rt.spawned(77, 4000, 1_000);
    assert!(rt.mark_running());
    rt
}

#[test]
fn webchat_url_format_matches_expected() {
    let port = 18_789;
    let url = webchat_url(port);
    assert_eq!(url, "http://127.0.0.1:18789");
}

#[test]
fn initial_status_is_stopped() {
    let runtime = GatewayRuntime::new();
    let status = runtime.snapshot(0);
    assert_eq!(status.state, "stopped");
    assert_eq!(status.port, DEFAULT_GATEWAY_PORT);
}

#[test]
fn start_passes_through_starting_and_times_out_when_never_healthy() {
    let mut rt = GatewayRuntime::new();
    assert!(rt.begin_start(4000).is_ok());
    assert!(rt.state == GatewayState::Starting);
    rt.spawned(77, 4000, 1_000);
    assert_eq!(rt.snapshot(3_500).uptime_secs, Some(2));
    let mut watch = ReadinessWatch::new();
    let mut probes = 0;
    loop {
        probes += 1;
        if watch.after_probe(&mut rt, false, ProcessObservation::Alive) {
            break;
        }
        assert!(rt.state == GatewayState::Starting);
    }
    assert_eq!(probes, READINESS_ATTEMPTS);
    assert!(rt.state == GatewayState::Error);
    assert_eq!(rt.error.as_deref(), Some("gateway did not become healthy within 60 seconds"));
}

#[test]
fn healthy_probe_promotes_to_running() {
    let mut rt = GatewayRuntime::new();
    rt.begin_start(4000).unwrap();
    rt.spawned(77, 4000, 0);
    let mut watch = ReadinessWatch::new();
    assert!(watch.after_probe(&mut rt, true, ProcessObservation::Alive));
    assert_eq!(rt.snapshot(0).state, "running");
    assert_eq!(rt.snapshot(0).pid, Some(77));
}

#[test]
fn start_is_refused_while_running() {
    let mut rt = running_gateway();
    assert_eq!(rt.begin_start(4000), Err("gateway already running".to_string()));
    assert!(rt.state == GatewayState::Running);
}

#[test]
fn spawn_failure_is_an_error_state() {
    let mut rt = GatewayRuntime::new();
    rt.begin_start(4000).unwrap();
    let m = rt.spawn_failed(4000, "/bin/openclaw", "not found");
    assert_eq!(m, "failed to spawn gateway with /bin/openclaw: not found");
    assert!(rt.state == GatewayState::Error);
    assert_eq!(rt.error.as_deref(), Some(m.as_str()));
}

#[test]
fn stop_force_kills_after_grace_and_ends_stopped() {
    let mut rt = running_gateway();
    assert!(rt.begin_stop());
    assert_eq!(rt.snapshot(2_000).state, "stopping");
    assert!(stop_wait_action(100, ChildWait::StillRunning) == StopAction::Wait);
    assert!(stop_wait_action(4_999, ChildWait::StillRunning) == StopAction::Wait);
    assert!(stop_wait_action(5_000, ChildWait::StillRunning) == StopAction::ForceKill);
    assert!(stop_wait_action(10, ChildWait::Exited) == StopAction::Done);
    assert!(stop_wait_action(10, ChildWait::WaitFailed) == StopAction::Done);
    rt.finish_stop();
    let s = rt.snapshot(9_000);
    assert_eq!(s.state, "stopped");
    assert_eq!(s.pid, None);
    assert_eq!(s.uptime_secs, None);
    assert!(!rt.has_child);
}

#[test]
fn stop_without_child_normalizes_to_stopped() {
    let mut rt = GatewayRuntime::new();
    rt.set_state(GatewayState::Error, None, 4000, Some("x".to_string()), false);
    assert!(!rt.begin_stop());
    assert!(rt.state == GatewayState::Stopped);
    assert_eq!(rt.error, None);
}

#[test]
fn status_reflects_out_of_band_exit() {
    let mut rt = running_gateway();
    let s = rt.status(
        ProcessObservation::Exited { success: false, status: "exit status: 3".to_string() },
        5_000,
    );
    assert_eq!(s.state, "error");
    assert_eq!(s.error.as_deref(), Some("gateway exited unexpectedly with status exit status: 3"));
    assert!(!rt.has_child);

    let mut rt = running_gateway();
    let s = rt.status(
        ProcessObservation::Exited { success: true, status: "exit status: 0".to_string() },
        5_000,
    );
    assert_eq!(s.state, "stopped");

    let mut rt = running_gateway();
    let s = rt.status(ProcessObservation::Uninspectable { reason: "EPERM".to_string() }, 5_000);
    assert_eq!(s.error.as_deref(), Some("failed to inspect gateway process state: EPERM"));
}

#[test]
fn status_keeps_live_gateway_and_reports_uptime() {
    let mut rt = running_gateway();
    let s = rt.status(ProcessObservation::Alive, 61_000);
    assert_eq!(s.state, "running");
    assert_eq!(s.uptime_secs, Some(60));
}

#[test]
fn monitor_trips_after_three_consecutive_failures() {
    let mut rt = running_gateway();
    let mut m = HealthMonitor::new();
    assert!(m.should_probe(&mut rt, ProcessObservation::Alive));
    assert!(!m.record_probe(&mut rt, false));
    assert!(!m.record_probe(&mut rt, false));
    assert!(!m.record_probe(&mut rt, true));
    assert!(!m.record_probe(&mut rt, false));
    assert!(!m.record_probe(&mut rt, false));
    assert!(rt.state == GatewayState::Running);
    assert!(m.record_probe(&mut rt, false));
    assert!(rt.state == GatewayState::Error);
    assert_eq!(rt.error.as_deref(), Some("gateway health checks failed repeatedly"));
    assert!(!m.should_probe(&mut rt, ProcessObservation::Alive));
}

#[test]
fn stale_readiness_does_not_revive_a_stopped_gateway() {
    let mut rt = running_gateway();
    rt.begin_stop();
    rt.finish_stop();
    assert!(!rt.mark_running());
    assert!(!rt.mark_start_timeout());
    assert!(rt.state == GatewayState::Stopped);
}

#[test]
fn monitor_treats_unrequested_clean_exit_as_error() {
    let mut rt = running_gateway();
    let m = HealthMonitor::new();
    let go_on = m.should_probe(
        &mut rt,
        ProcessObservation::Exited { success: true, status: "exit status: 0".to_string() },
    );
    assert!(!go_on);
    assert!(rt.state == GatewayState::Error);
    assert_eq!(rt.error.as_deref(), Some("gateway exited unexpectedly with status exit status: 0"));
    assert!(!rt.has_child);
}

#[test]
fn monitor_sees_requested_exit_as_stopped() {
    let mut rt = running_gateway();
    rt.set_state(GatewayState::Stopping, Some(77), 4000, None, true);
    let m = HealthMonitor::new();
    assert!(!m.should_probe(
        &mut rt,
        ProcessObservation::Exited { success: false, status: "signal: 15".to_string() },
    ));
    assert!(rt.state == GatewayState::Stopped);
}
