//! The worker's lifecycle state and the decisions taken on it: start, the
//! stop sequence, the exit watcher, liveness and the health query.
//!
//! The state is generic over the process handle `H`, which it owns and never
//! inspects; the host performs each action on the handle and reports back.

use vstd::prelude::*;
use crate::errors::SupervisorError;
use crate::events::StderrSummary;

verus! {

/// Pauses, in milliseconds, between two exit polls of a stop.
pub const STOP_POLL_INTERVAL_MS: u64 = 100;
/// Polls a stop makes after the graceful signal before it kills.
pub const STOP_GRACE_POLLS: u32 = 30;
/// Polls a restart makes after the graceful signal before it kills.
pub const RESTART_GRACE_POLLS: u32 = 20;
/// Pause, in milliseconds, between a restart's stop and its start.
pub const RESTART_SETTLE_MS: u64 = 500;
/// Pause, in milliseconds, between two polls of the exit watcher.
pub const WATCH_INTERVAL_MS: u64 = 1000;

/// What a worker state holds, as values.
pub struct WorkerModel<H> {
    pub running: bool,
    pub handle: Option<H>,
    pub last_heartbeat: Option<u64>,
    pub last_error: Option<Seq<char>>,
}

/// A running flag agrees with the presence of a handle.
pub open spec fn consistent<H>(m: WorkerModel<H>) -> bool {
    m.running == (m.handle is Some)
}

/// The state before any start: nothing running, nothing recorded.
pub open spec fn idle<H>() -> WorkerModel<H> {
    WorkerModel { running: false, handle: None, last_heartbeat: None, last_error: None }
}

/// The state right after a successful spawn of `h` at time `now`.
pub open spec fn spawned<H>(h: H, now: u64) -> WorkerModel<H> {
    WorkerModel { running: true, handle: Some(h), last_heartbeat: Some(now), last_error: None }
}

/// The later of two instants.
pub open spec fn later(a: u64, b: u64) -> u64 {
    if a < b { b } else { a }
}

/// `m` after output from the worker at time `now`; the heartbeat never goes
/// back.
pub open spec fn with_activity<H>(m: WorkerModel<H>, now: u64) -> WorkerModel<H> {
    WorkerModel {
        last_heartbeat: Some(
            match m.last_heartbeat {
                Some(t) => later(t, now),
                None => now,
            },
        ),
        ..m
    }
}

/// `m` with the worker gone: not running, no handle; the rest kept.
pub open spec fn cleared<H>(m: WorkerModel<H>) -> WorkerModel<H> {
    WorkerModel { running: false, handle: None, ..m }
}

/// Whole seconds from `t` to `now`; none when `now` is before `t`.
pub open spec fn seconds_between(t: u64, now: u64) -> u64 {
    if now >= t { ((now - t) / 1000) as u64 } else { 0 }
}

/// What the exit watcher saw when it polled the handle.
#[derive(Debug, Clone, Copy, PartialEq, Eq)]
pub enum ExitPoll {
    /// The worker still runs.
    Running,
    /// The worker ended, with its exit code where the system gave one.
    Exited { code: Option<i32> },
    /// The poll itself failed.
    Failed,
}

/// What the exit watcher does next.
#[derive(Debug, Clone, Copy, PartialEq, Eq)]
pub enum WatchStep {
    /// Sleep one interval and poll again.
    Continue,
    /// Publish the stopped event with this code, then end the watch.
    Stopped { code: Option<i32> },
    /// End the watch without publishing.
    Finish,
}

/// The exit watcher's decision on `m` for the poll `p`: the next state and
/// the step.
pub open spec fn watch_next<H>(m: WorkerModel<H>, p: ExitPoll) -> (WorkerModel<H>, WatchStep) {
    if m.handle is None {
        (m, WatchStep::Finish)
    } else {
        match p {
            ExitPoll::Running => (m, WatchStep::Continue),
            ExitPoll::Exited { code } => (cleared(m), WatchStep::Stopped { code }),
            ExitPoll::Failed => (cleared(m), WatchStep::Finish),
        }
    }
}

/// The answer to a health query.
pub struct Health {
    pub running: bool,
    pub seconds_since_heartbeat: Option<u64>,
    pub last_error: Option<String>,
}

/// The process-wide state of the one worker.
pub struct WorkerState<H> {
    running: bool,
    handle: Option<H>,
    last_heartbeat: Option<u64>,
    last_error: Option<String>,
}

impl<H> View for WorkerState<H> {
    type V = WorkerModel<H>;

    closed spec fn view(&self) -> WorkerModel<H> {
        WorkerModel {
            running: self.running,
            handle: self.handle,
            last_heartbeat: self.last_heartbeat,
            last_error: match self.last_error {
                Some(e) => Some(e@),
                None => None,
            },
        }
    }
}

impl<H> WorkerState<H> {
    /// The state at supervisor start: idle.
    pub fn new() -> (r: WorkerState<H>)
        ensures
            r@ == idle::<H>(),
            consistent(r@),
    {
        WorkerState { running: false, handle: None, last_heartbeat: None, last_error: None }
    }

    /// Whether a worker runs.
    pub fn is_running(&self) -> (r: bool)
        ensures
            r == self@.running,
    {
        self.running
    }

    /// Whether a start may go on: it may not while a worker runs.
    pub fn start_gate(&self) -> (r: Result<(), SupervisorError>)
        ensures
            self@.running ==> r == Err::<(), SupervisorError>(SupervisorError::AlreadyRunning),
            !self@.running ==> r is Ok,
    {
        if self.running {
            Err(SupervisorError::AlreadyRunning)
        } else {
            Ok(())
        }
    }

    /// Records the spawn of `handle` at `now`: running, fresh heartbeat, no
    /// error yet.
    pub fn record_spawn(&mut self, handle: H, now: u64)
        requires
            !old(self)@.running,
        ensures
            final(self)@ == spawned(handle, now),
            consistent(final(self)@),
    {
        self.running = true;
        self.handle = Some(handle);
        self.last_heartbeat = Some(now);
        self.last_error = None;
    }

    /// Records a line of output from the worker at `now`.
    pub fn record_activity(&mut self, now: u64)
        requires
            consistent(old(self)@),
        ensures
            final(self)@ == with_activity(old(self)@, now),
            consistent(final(self)@),
    {
        let t = match self.last_heartbeat {
            Some(t) => if t < now { now } else { t },
            None => now,
        };
        self.last_heartbeat = Some(t);
    }

    /// Keeps the summary of a closed error stream as the run's last error.
    pub fn record_error_summary(&mut self, summary: &StderrSummary)
        requires
            consistent(old(self)@),
        ensures
            consistent(final(self)@),
            final(self)@ == (WorkerModel { last_error: Some(summary.last_error@), ..old(self)@ }),
    {
        self.last_error = Some(summary.last_error.clone());
    }

    /// The handle of the running worker, to act on it.
    pub fn handle_mut(&mut self) -> (r: &mut H)
        requires
            old(self)@.running,
            consistent(old(self)@),
        ensures
            old(self)@.handle == Some(*r),
            final(self)@ == (WorkerModel { handle: Some(*final(r)), ..old(self)@ }),
            consistent(final(self)@),
    {
        match &mut self.handle {
            Some(h) => h,
            None => unreached(),
        }
    }

    /// The exit watcher's decision for the poll `p`, applied.
    pub fn observe_exit(&mut self, p: ExitPoll) -> (r: WatchStep)
        requires
            consistent(old(self)@),
        ensures
            (final(self)@, r) == watch_next(old(self)@, p),
            consistent(final(self)@),
    {
        if self.handle.is_none() {
            return WatchStep::Finish;
        }
        match p {
            ExitPoll::Running => WatchStep::Continue,
            ExitPoll::Exited { code } => {
                self.running = false;
                self.handle = None;
                WatchStep::Stopped { code }
            },
            ExitPoll::Failed => {
                self.running = false;
                self.handle = None;
                WatchStep::Finish
            },
        }
    }

    /// Forgets the worker once it is confirmed gone, and hands back its
    /// handle.
    pub fn clear(&mut self) -> (r: Option<H>)
        ensures
            final(self)@ == cleared(old(self)@),
            r == old(self)@.handle,
            consistent(final(self)@),
    {
        self.running = false;
        self.handle.take()
    }

    /// Running flag, whole seconds since the last heartbeat (none before the
    /// first start) and the last run's error text, at time `now`.
    pub fn health(&self, now: u64) -> (r: Health)
        ensures
            r.running == self@.running,
            r.seconds_since_heartbeat == match self@.last_heartbeat {
                Some(t) => Some(seconds_between(t, now)),
                None => None::<u64>,
            },
            match r.last_error {
                Some(e) => self@.last_error == Some(e@),
                None => self@.last_error is None,
            },
    {
        let secs = match self.last_heartbeat {
            Some(t) => Some(if now >= t { (now - t) / 1000 } else { 0 }),
            None => None,
        };
        let err = match &self.last_error {
            Some(e) => Some(e.clone()),
            None => None,
        };
        Health { running: self.running, seconds_since_heartbeat: secs, last_error: err }
    }
}

/// Where a stop stands.
#[derive(Debug, Clone, Copy, PartialEq, Eq)]
pub enum StopPhase {
    /// The graceful signal is to be sent.
    Signalling,
    /// Waiting for the worker to leave on its own; `polls` polls made so far.
    Polling { polls: u32 },
    /// The forced kill is to be made and confirmed.
    Killing,
    /// The worker is gone, or there was none: clear the state.
    Finished,
}

/// What the host does next for a stop.
#[derive(Debug, Clone, Copy, PartialEq, Eq)]
pub enum StopAction {
    /// Send the graceful termination signal, then report `Signalled`.
    Terminate,
    /// Sleep one poll interval, poll for exit, and report the result.
    PauseThenPoll,
    /// Kill the worker, wait until the system confirms it, report `Killed`.
    ForceKill,
    /// Clear the state; the stop has succeeded.
    Finish,
}

/// What the host reports back to a stop.
#[derive(Debug, Clone, Copy, PartialEq, Eq)]
pub enum StopEvent {
    Signalled,
    Polled { exited: bool },
    Killed,
}

/// The sequence of one stop: a graceful signal, up to `grace_polls` polls,
/// then a forced kill.
#[derive(Debug, Clone, Copy, PartialEq, Eq)]
pub struct StopPlan {
    pub grace_polls: u32,
    pub phase: StopPhase,
}

/// The action that the phase `p` waits on.
pub open spec fn pending_action(p: StopPhase) -> StopAction {
    match p {
        StopPhase::Signalling => StopAction::Terminate,
        StopPhase::Polling { .. } => StopAction::PauseThenPoll,
        StopPhase::Killing => StopAction::ForceKill,
        StopPhase::Finished => StopAction::Finish,
    }
}

/// How a stop begins: at once done without a worker; with a signal where the
/// platform can send one; else with the forced kill.
pub open spec fn stop_begin(has_worker: bool, can_signal: bool, grace_polls: u32) -> StopPlan {
    StopPlan {
        grace_polls,
        phase: if !has_worker {
            StopPhase::Finished
        } else if can_signal {
            StopPhase::Signalling
        } else {
            StopPhase::Killing
        },
    }
}

/// The phase after `e` in plan `p`; a report that the phase does not wait
/// for leaves it as it is.
pub open spec fn stop_next(p: StopPlan, e: StopEvent) -> StopPlan {
    let phase = match (p.phase, e) {
        (StopPhase::Signalling, StopEvent::Signalled) => if p.grace_polls == 0 {
            StopPhase::Killing
        } else {
            StopPhase::Polling { polls: 0 }
        },
        (StopPhase::Polling { polls }, StopEvent::Polled { exited }) => if exited {
            StopPhase::Finished
        } else if polls as int + 1 >= p.grace_polls {
            StopPhase::Killing
        } else {
            StopPhase::Polling { polls: (polls + 1) as u32 }
        },
        (StopPhase::Killing, StopEvent::Killed) => StopPhase::Finished,
        _ => p.phase,
    };
    StopPlan { phase, ..p }
}

/// A well-formed plan never counts past its grace.
pub open spec fn stop_plan_wf(p: StopPlan) -> bool {
    match p.phase {
        StopPhase::Polling { polls } => polls < p.grace_polls,
        _ => true,
    }
}

impl StopPlan {
    /// The plan of a stop and its first action.
    pub fn begin(has_worker: bool, can_signal: bool, grace_polls: u32) -> (r: (StopPlan, StopAction))
        ensures
            r.0 == stop_begin(has_worker, can_signal, grace_polls),
            r.1 == pending_action(r.0.phase),
            stop_plan_wf(r.0),
    {
        let phase = if !has_worker {
            StopPhase::Finished
        } else if can_signal {
            StopPhase::Signalling
        } else {
            StopPhase::Killing
        };
        let plan = StopPlan { grace_polls, phase };
        let action = match phase {
            StopPhase::Finished => StopAction::Finish,
            StopPhase::Signalling => StopAction::Terminate,
            _ => StopAction::ForceKill,
        };
        (plan, action)
    }

    /// Takes in the report `e` and returns the next action.
    pub fn next(&mut self, e: StopEvent) -> (r: StopAction)
        requires
            stop_plan_wf(*old(self)),
        ensures
            *final(self) == stop_next(*old(self), e),
            r == pending_action(final(self).phase),
            stop_plan_wf(*final(self)),
    {
        let phase = match (self.phase, e) {
            (StopPhase::Signalling, StopEvent::Signalled) => if self.grace_polls == 0 {
                StopPhase::Killing
            } else {
                StopPhase::Polling { polls: 0 }
            },
            (StopPhase::Polling { polls }, StopEvent::Polled { exited }) => if exited {
                StopPhase::Finished
            } else if polls + 1 >= self.grace_polls {
                StopPhase::Killing
            } else {
                StopPhase::Polling { polls: polls + 1 }
            },
            (StopPhase::Killing, StopEvent::Killed) => StopPhase::Finished,
            _ => self.phase,
        };
        self.phase = phase;
        match phase {
            StopPhase::Signalling => StopAction::Terminate,
            StopPhase::Polling { .. } => StopAction::PauseThenPoll,
            StopPhase::Killing => StopAction::ForceKill,
            StopPhase::Finished => StopAction::Finish,
        }
    }
}

/// One thing that happens to the worker state: a command or a report from a
/// background task.
pub enum Command<H> {
    /// A start whose spawn gave `handle` at `now` (rejected while running).
    Start { handle: H, now: u64 },
    /// A stop, run to its end.
    Stop,
    /// A line of output at `now`.
    Output { now: u64 },
    /// A poll of the exit watcher.
    Watch { poll: ExitPoll },
}

/// The state after `c`.
pub open spec fn apply_command<H>(m: WorkerModel<H>, c: Command<H>) -> WorkerModel<H> {
    match c {
        Command::Start { handle, now } => if m.running {
            m
        } else {
            spawned(handle, now)
        },
        Command::Stop => cleared(m),
        Command::Output { now } => with_activity(m, now),
        Command::Watch { poll } => watch_next(m, poll).0,
    }
}

/// The state after the commands `cs`, in order.
pub open spec fn run_commands<H>(m: WorkerModel<H>, cs: Seq<Command<H>>) -> WorkerModel<H>
    decreases cs.len(),
{
    if cs.len() == 0 {
        m
    } else {
        apply_command(run_commands(m, cs.drop_last()), cs.last())
    }
}

/// Over any sequence of commands and reports, the running flag always agrees
/// with the handle; it is set right after each start and clear right after
/// each stop.
pub proof fn lemma_running_follows_commands<H>(m: WorkerModel<H>, cs: Seq<Command<H>>)
    requires
        consistent(m),
    ensures
        forall|i: int|
            0 <= i < cs.len() ==> {
                let r = #[trigger] run_commands(m, cs.take(i + 1));
                &&& consistent(r)
                &&& (cs[i] is Start ==> r.running)
                &&& (cs[i] is Stop ==> !r.running)
            },
    decreases cs.len(),
{
    if cs.len() > 0 {
        let front = cs.drop_last();
        lemma_running_follows_commands(m, front);
        assert forall|i: int| 0 <= i < cs.len() implies {
            let r = #[trigger] run_commands(m, cs.take(i + 1));
            &&& consistent(r)
            &&& (cs[i] is Start ==> r.running)
            &&& (cs[i] is Stop ==> !r.running)
        } by {
            assert(cs.take(i + 1).drop_last() =~= cs.take(i));
            assert(cs.take(i + 1).last() == cs[i]);
            if i < cs.len() - 1 {
                assert(cs.take(i + 1) =~= front.take(i + 1));
                assert(front[i] == cs[i]);
            } else {
                assert(cs.take(i) =~= front);
                lemma_consistent_after_all(m, front);
            }
        }
    }
}

/// Every state reached from a consistent one is consistent.
pub proof fn lemma_consistent_after_all<H>(m: WorkerModel<H>, cs: Seq<Command<H>>)
    requires
        consistent(m),
    ensures
        consistent(run_commands(m, cs)),
    decreases cs.len(),
{
    if cs.len() > 0 {
        lemma_consistent_after_all(m, cs.drop_last());
    }
}

/// Output never moves the heartbeat back, and leaves the running flag and
/// the handle as they were.
pub proof fn lemma_heartbeat_monotone<H>(m: WorkerModel<H>, now: u64)
    ensures
        with_activity(m, now).last_heartbeat matches Some(t2) && t2 >= now && (m.last_heartbeat
            matches Some(t1) ==> t2 >= t1),
        with_activity(m, now).running == m.running,
        with_activity(m, now).handle == m.handle,
{
}

/// A start while a worker runs changes nothing: the same handle stays, and
/// no second one is taken.
pub proof fn lemma_start_while_running<H>(m: WorkerModel<H>, handle: H, now: u64)
    requires
        consistent(m),
        m.running,
    ensures
        apply_command(m, Command::Start { handle, now }) == m,
{
}

/// A stop without a worker finishes at once and leaves the state as it was.
pub proof fn lemma_stop_when_idle<H>(m: WorkerModel<H>, can_signal: bool, grace_polls: u32)
    requires
        consistent(m),
        !m.running,
    ensures
        stop_begin(m.handle is Some, can_signal, grace_polls).phase == StopPhase::Finished,
        apply_command(m, Command::Stop) == m,
{
}

/// Once the worker has exited, the next poll clears the state and reports
/// the exit code, and every later poll ends the watch without a second
/// report.
pub proof fn lemma_exit_reported_once<H>(m: WorkerModel<H>, code: Option<i32>, later_poll: ExitPoll)
    requires
        consistent(m),
        m.running,
    ensures
        ({
            let (after, step) = watch_next(m, (ExitPoll::Exited { code }));
            &&& !after.running
            &&& step == (WatchStep::Stopped { code })
            &&& watch_next(after, later_poll) == (after, WatchStep::Finish)
        }),
{
}

/// The plan after `k` polls that all found the worker still there.
pub open spec fn after_ignored_polls(p: StopPlan, k: nat) -> StopPlan
    decreases k,
{
    if k == 0 {
        p
    } else {
        stop_next(after_ignored_polls(p, (k - 1) as nat), StopEvent::Polled { exited: false })
    }
}

/// A worker that ignores the graceful signal: after the signal come exactly
/// `grace_polls` pauses, each followed by a poll, then the forced kill; once
/// the kill is confirmed the stop finishes.
pub proof fn lemma_grace_then_kill(grace_polls: u32)
    ensures
        ({
            let p0 = stop_begin(true, true, grace_polls);
            let p1 = stop_next(p0, StopEvent::Signalled);
            &&& pending_action(p0.phase) == StopAction::Terminate
            &&& forall|k: nat|
                k < grace_polls ==> pending_action(#[trigger] after_ignored_polls(p1, k).phase)
                    == StopAction::PauseThenPoll
            &&& pending_action(after_ignored_polls(p1, grace_polls as nat).phase)
                == StopAction::ForceKill
            &&& stop_next(after_ignored_polls(p1, grace_polls as nat), StopEvent::Killed).phase
                == StopPhase::Finished
        }),
{
    let p0 = stop_begin(true, true, grace_polls);
    let p1 = stop_next(p0, StopEvent::Signalled);
    if grace_polls == 0 {
        assert(p1.phase == StopPhase::Killing);
    } else {
        lemma_ignored_polls_count(p1, grace_polls as nat);
    }
}

proof fn lemma_ignored_polls_count(p1: StopPlan, n: nat)
    requires
        p1.phase == (StopPhase::Polling { polls: 0 }),
        0 < n <= p1.grace_polls,
    ensures
        forall|k: nat|
            k < n ==> #[trigger] after_ignored_polls(p1, k).phase == (StopPhase::Polling {
                polls: k as u32,
            }),
        n == p1.grace_polls ==> after_ignored_polls(p1, n).phase == StopPhase::Killing,
        after_ignored_polls(p1, n).grace_polls == p1.grace_polls,
    decreases n,
{
    if n > 1 {
        lemma_ignored_polls_count(p1, (n - 1) as nat);
        assert forall|k: nat| k < n implies #[trigger] after_ignored_polls(p1, k).phase == (
        StopPhase::Polling { polls: k as u32 }) by {
            if k == n - 1 {
                assert(after_ignored_polls(p1, (n - 2) as nat).phase == (StopPhase::Polling {
                    polls: (n - 2) as u32,
                }));
            }
        }
    } else {
        assert(after_ignored_polls(p1, 0) == p1);
    }
}

} // verus!
