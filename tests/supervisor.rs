use signalbot::errors::SupervisorError;
use signalbot::events::StderrLog;
use signalbot::supervisor::{
    ExitPoll, StopAction, StopEvent, StopPhase, StopPlan, WatchStep, WorkerState, RESTART_GRACE_POLLS,
    STOP_GRACE_POLLS, STOP_POLL_INTERVAL_MS,
};

#[test]
fn start_then_stop_toggles_running() {
    let mut st: WorkerState<u32> = WorkerState::new();
    for round in 0..3u32 {
        assert!(st.start_gate().is_ok());
        st.record_spawn(100 + round, 1_000);
        assert!(st.is_running());
        assert!(st.health(1_000).running);
        let (_, first) = StopPlan::begin(st.is_running(), true, STOP_GRACE_POLLS);
        assert_eq!(first, StopAction::Terminate);
        assert_eq!(st.clear(), Some(100 + round));
        assert!(!st.is_running());
        assert!(!st.health(2_000).running);
    }
}

#[test]
fn start_while_running_is_rejected() {
    let mut st: WorkerState<u32> = WorkerState::new();
    st.record_spawn(7, 0);
    assert_eq!(st.start_gate(), Err(SupervisorError::AlreadyRunning));
    assert_eq!(st.start_gate().unwrap_err().message(), "Bot is already running");
    assert!(st.is_running());
    assert_eq!(*st.handle_mut(), 7);
}

#[test]
fn stop_when_idle_is_a_no_op() {
    let mut st: WorkerState<u32> = WorkerState::new();
    let (plan, action) = StopPlan::begin(st.is_running(), true, STOP_GRACE_POLLS);
    assert_eq!(action, StopAction::Finish);
    assert_eq!(plan.phase, StopPhase::Finished);
    assert_eq!(st.clear(), None);
    let h = st.health(5_000);
    assert!(!h.running);
    assert_eq!(h.seconds_since_heartbeat, None);
    assert_eq!(h.last_error, None);
}

#[test]
fn exit_watcher_reports_once() {
    let mut st: WorkerState<u32> = WorkerState::new();
    st.record_spawn(1, 0);
    assert_eq!(st.observe_exit(ExitPoll::Running), WatchStep::Continue);
    assert!(st.is_running());
    assert_eq!(st.observe_exit(ExitPoll::Exited { code: Some(3) }), WatchStep::Stopped { code: Some(3) });
    assert!(!st.is_running());
    assert_eq!(st.observe_exit(ExitPoll::Exited { code: Some(3) }), WatchStep::Finish);
    assert_eq!(st.observe_exit(ExitPoll::Running), WatchStep::Finish);
}

#[test]
fn exit_watcher_treats_poll_failure_as_exit() {
    let mut st: WorkerState<u32> = WorkerState::new();
    st.record_spawn(1, 0);
    assert_eq!(st.observe_exit(ExitPoll::Failed), WatchStep::Finish);
    assert!(!st.is_running());
    assert_eq!(st.clear(), None);
}

#[test]
fn grace_then_kill() {
    let (mut plan, action) = StopPlan::begin(true, true, STOP_GRACE_POLLS);
    assert_eq!(action, StopAction::Terminate);
    let mut action = plan.next(StopEvent::Signalled);
    let mut pauses = 0u32;
    while action == StopAction::PauseThenPoll {
        pauses += 1;
        action = plan.next(StopEvent::Polled { exited: false });
    }
    assert_eq!(pauses, STOP_GRACE_POLLS);
    assert_eq!(pauses as u64 * STOP_POLL_INTERVAL_MS, 3_000);
    assert_eq!(action, StopAction::ForceKill);
    assert_eq!(plan.next(StopEvent::Killed), StopAction::Finish);
    assert_eq!(plan.phase, StopPhase::Finished);
}

#[test]
fn graceful_exit_ends_the_stop_early() {
    let (mut plan, _) = StopPlan::begin(true, true, RESTART_GRACE_POLLS);
    assert_eq!(plan.next(StopEvent::Signalled), StopAction::PauseThenPoll);
    assert_eq!(plan.next(StopEvent::Polled { exited: false }), StopAction::PauseThenPoll);
    assert_eq!(plan.next(StopEvent::Polled { exited: true }), StopAction::Finish);
}

#[test]
fn no_signals_means_straight_kill() {
    let (mut plan, action) = StopPlan::begin(true, false, STOP_GRACE_POLLS);
    assert_eq!(action, StopAction::ForceKill);
    assert_eq!(plan.next(StopEvent::Polled { exited: false }), StopAction::ForceKill);
    assert_eq!(plan.next(StopEvent::Killed), StopAction::Finish);
}

#[test]
fn zero_grace_kills_after_the_signal() {
    let (mut plan, _) = StopPlan::begin(true, true, 0);
    assert_eq!(plan.next(StopEvent::Signalled), StopAction::ForceKill);
}

#[test]
fn heartbeat_and_health() {
    let mut st: WorkerState<u32> = WorkerState::new();
    st.record_spawn(9, 1_000);
    assert_eq!(st.health(4_500).seconds_since_heartbeat, Some(3));
    st.record_activity(4_000);
    assert_eq!(st.health(4_500).seconds_since_heartbeat, Some(0));
    st.record_activity(2_000);
    assert_eq!(st.health(6_100).seconds_since_heartbeat, Some(2));
    assert_eq!(st.health(500).seconds_since_heartbeat, Some(0));
}

#[test]
fn last_error_is_kept_and_cleared_on_start() {
    let mut st: WorkerState<u32> = WorkerState::new();
    st.record_spawn(1, 0);
    let mut log = StderrLog::new();
    log.record("a");
    log.record("b");
    st.record_error_summary(&log.summary().unwrap());
    assert_eq!(st.health(0).last_error, Some("a\nb".to_string()));
    st.observe_exit(ExitPoll::Exited { code: Some(1) });
    assert_eq!(st.health(0).last_error, Some("a\nb".to_string()));
    st.record_spawn(2, 10);
    assert_eq!(st.health(10).last_error, None);
}
