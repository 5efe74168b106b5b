//! The lifecycle of a managed process: its states and the decisions taken
//! on each request and each report from the running process.
use vstd::prelude::*;
use crate::error::{AppError, AppErrorView};

verus! {

/// Where a managed process is in its lifecycle.
#[derive(Debug, Clone, Copy, PartialEq, Eq, Structural)]
pub enum ProcessStateKind {
    Stopped,
    Starting,
    Running,
    Stopping,
    Failed,
}

/// What is known of a managed process.
#[derive(Debug, Clone, Copy, PartialEq, Eq, Structural)]
pub struct ProcessState {
    pub state: ProcessStateKind,
    pub pid: Option<u32>,
    pub started_at: Option<i64>,
    pub uptime_sec: Option<u64>,
    pub exit_code: Option<i32>,
    pub healthy: Option<bool>,
}

/// The two kinds of managed process.
#[derive(Debug, Clone, Copy, PartialEq, Eq, Structural)]
pub enum ProcessTarget {
    Server,
    Bridge,
}

/// The state of a process that is not running and has not reported an exit.
pub open spec fn idle_state(kind: ProcessStateKind) -> ProcessState {
    ProcessState {
        state: kind,
        pid: None,
        started_at: None,
        uptime_sec: None,
        exit_code: None,
        healthy: None,
    }
}

/// The state of a process that ended with `exit_code`.
pub open spec fn ended_state(kind: ProcessStateKind, exit_code: Option<i32>) -> ProcessState {
    ProcessState { exit_code, ..idle_state(kind) }
}

impl Default for ProcessState {
    fn default() -> (r: Self)
        ensures
            r == idle_state(ProcessStateKind::Stopped),
    {
        ProcessState {
            state: ProcessStateKind::Stopped,
            pid: None,
            started_at: None,
            uptime_sec: None,
            exit_code: None,
            healthy: None,
        }
    }
}

/// A process is active while it is starting or running.
pub open spec fn is_active(kind: ProcessStateKind) -> bool {
    kind == ProcessStateKind::Running || kind == ProcessStateKind::Starting
}

/// The fields of a state agree with its kind: only a running (or stopping)
/// process has a pid, start time and uptime, only a running (or stopping)
/// one a health verdict, and only an ended one an exit code.
pub open spec fn consistent(s: ProcessState) -> bool {
    &&& (s.state != ProcessStateKind::Running && s.state != ProcessStateKind::Stopping) ==> (s.pid
        is None && s.started_at is None && s.uptime_sec is None && s.healthy is None)
    &&& s.state == ProcessStateKind::Running ==> s.started_at is Some && s.uptime_sec is Some
    &&& (s.state != ProcessStateKind::Stopped && s.state != ProcessStateKind::Failed)
        ==> s.exit_code is None
}

/// The refusal of a start while the process is active.
pub open spec fn already_running_spec(target: ProcessTarget) -> AppErrorView {
    match target {
        ProcessTarget::Server => AppErrorView::Process("server already running"@),
        ProcessTarget::Bridge => AppErrorView::Process("bridge already running"@),
    }
}

/// The lifecycle record of one managed process: its state, and whether a
/// stop was asked for, so that its exit counts as a stop and not a failure.
pub struct ProcessRecord {
    pub state: ProcessState,
    pub stopping: bool,
}

/// After an accepted start: `Starting`, nothing else known.
pub open spec fn start_spec(r: ProcessRecord) -> ProcessRecord {
    ProcessRecord { state: idle_state(ProcessStateKind::Starting), stopping: r.stopping }
}

/// After a successful spawn: `Running` with the pid, started at `now`, up for no time yet.
pub open spec fn spawned_spec(r: ProcessRecord, pid: Option<u32>, now: i64) -> ProcessRecord {
    ProcessRecord {
        state: ProcessState {
            state: ProcessStateKind::Running,
            pid,
            started_at: Some(now),
            uptime_sec: Some(0),
            exit_code: None,
            healthy: None,
        },
        stopping: r.stopping,
    }
}

/// After a failed spawn: `Failed`.
pub open spec fn spawn_failed_spec(r: ProcessRecord) -> ProcessRecord {
    ProcessRecord { state: idle_state(ProcessStateKind::Failed), stopping: r.stopping }
}

/// After a stop request: an active process is `Stopping` and marked as being
/// stopped; any other is left as it is.
pub open spec fn stop_spec(r: ProcessRecord) -> ProcessRecord {
    if is_active(r.state.state) {
        ProcessRecord {
            state: ProcessState { state: ProcessStateKind::Stopping, ..r.state },
            stopping: true,
        }
    } else {
        r
    }
}

/// After the requested stop completed: `Stopped` with the exit code.
pub open spec fn stop_finished_spec(r: ProcessRecord, exit_code: Option<i32>) -> ProcessRecord {
    ProcessRecord { state: ended_state(ProcessStateKind::Stopped, exit_code), stopping: false }
}

/// After the process ended: `Stopped` if a stop was asked for, else `Failed`.
pub open spec fn exited_spec(r: ProcessRecord, exit_code: Option<i32>) -> ProcessRecord {
    ProcessRecord {
        state: ended_state(
            if r.stopping {
                ProcessStateKind::Stopped
            } else {
                ProcessStateKind::Failed
            },
            exit_code,
        ),
        stopping: false,
    }
}

/// After a health report: kept for a running process, ignored for any other.
pub open spec fn health_spec(r: ProcessRecord, healthy: bool) -> ProcessRecord {
    if r.state.state == ProcessStateKind::Running {
        ProcessRecord { state: ProcessState { healthy: Some(healthy), ..r.state }, stopping: r.stopping }
    } else {
        r
    }
}

impl ProcessRecord {
    /// The record's state is consistent.
    pub open spec fn wf(&self) -> bool {
        consistent(self.state)
    }

    /// A stopped process with no history.
    pub fn new() -> (r: Self)
        ensures
            r.state == idle_state(ProcessStateKind::Stopped),
            !r.stopping,
            r.wf(),
    {
        ProcessRecord { state: ProcessState::default(), stopping: false }
    }

    /// Asks to start the process: refused while it is starting or running,
    /// leaving the record as it was; otherwise it becomes `Starting`.
    pub fn begin_start(&mut self, target: ProcessTarget) -> (r: Result<(), AppError>)
        ensures
            is_active(old(self).state.state) ==> (r matches Err(e) && e@ == already_running_spec(
                target,
            ) && *final(self) == *old(self)),
            !is_active(old(self).state.state) ==> (r is Ok && *final(self) == start_spec(
                *old(self),
            )),
    {
        if self.state.state == ProcessStateKind::Running || self.state.state
            == ProcessStateKind::Starting {
            let msg = match target {
                ProcessTarget::Server => "server already running",
                ProcessTarget::Bridge => "bridge already running",
            };
            return Err(AppError::Process(String::from_str(msg)));
        }
        self.state = ProcessState::default();
        self.state.state = ProcessStateKind::Starting;
        Ok(())
    }

    /// The process was spawned.
    pub fn spawn_succeeded(&mut self, pid: Option<u32>, now: i64)
        ensures
            *final(self) == spawned_spec(*old(self), pid, now),
    {
        self.state = ProcessState {
            state: ProcessStateKind::Running,
            pid,
            started_at: Some(now),
            uptime_sec: Some(0),
            exit_code: None,
            healthy: None,
        };
    }

    /// The process could not be spawned.
    pub fn spawn_failed(&mut self)
        ensures
            *final(self) == spawn_failed_spec(*old(self)),
    {
        self.state = ProcessState::default();
        self.state.state = ProcessStateKind::Failed;
    }

    /// Asks to stop the process; `true` when it was active, and the caller
    /// then ends it.
    pub fn begin_stop(&mut self) -> (proceed: bool)
        ensures
            proceed == is_active(old(self).state.state),
            *final(self) == stop_spec(*old(self)),
    {
        if self.state.state == ProcessStateKind::Running || self.state.state
            == ProcessStateKind::Starting {
            self.state.state = ProcessStateKind::Stopping;
            self.stopping = true;
            true
        } else {
            false
        }
    }

    /// The stop that was asked for is complete.
    pub fn stop_finished(&mut self, exit_code: Option<i32>)
        ensures
            *final(self) == stop_finished_spec(*old(self), exit_code),
    {
        self.state = ProcessState::default();
        self.state.exit_code = exit_code;
        self.stopping = false;
    }

    /// The process ended.
    pub fn process_exited(&mut self, exit_code: Option<i32>)
        ensures
            *final(self) == exited_spec(*old(self), exit_code),
    {
        let next = if self.stopping {
            ProcessStateKind::Stopped
        } else {
            ProcessStateKind::Failed
        };
        self.stopping = false;
        self.state = ProcessState::default();
        self.state.state = next;
        self.state.exit_code = exit_code;
    }

    /// A health verdict arrived; `true` when it was recorded.
    pub fn report_health(&mut self, healthy: bool) -> (recorded: bool)
        ensures
            recorded == (old(self).state.state == ProcessStateKind::Running),
            *final(self) == health_spec(*old(self), healthy),
    {
        if self.state.state == ProcessStateKind::Running {
            self.state.healthy = Some(healthy);
            true
        } else {
            false
        }
    }

    /// The state to report, with the uptime of a running process replaced
    /// by `elapsed_sec` when it is known.
    pub fn snapshot(&self, elapsed_sec: Option<u64>) -> (r: ProcessState)
        ensures
            r == (if self.state.state == ProcessStateKind::Running && elapsed_sec is Some {
                ProcessState { uptime_sec: elapsed_sec, ..self.state }
            } else {
                self.state
            }),
    {
        let mut r = self.state;
        if r.state == ProcessStateKind::Running {
            if let Some(e) = elapsed_sec {
                r.uptime_sec = Some(e);
            }
        }
        r
    }
}

/// Law: every step of the lifecycle keeps a record consistent, and so does
/// reporting its state with any uptime.
pub proof fn law_steps_keep_consistent(
    r: ProcessRecord,
    pid: Option<u32>,
    now: i64,
    exit_code: Option<i32>,
    healthy: bool,
    elapsed: u64,
)
    requires
        r.wf(),
    ensures
        start_spec(r).wf(),
        spawned_spec(r, pid, now).wf(),
        spawn_failed_spec(r).wf(),
        stop_spec(r).wf(),
        stop_finished_spec(r, exit_code).wf(),
        exited_spec(r, exit_code).wf(),
        health_spec(r, healthy).wf(),
        r.state.state == ProcessStateKind::Running ==> consistent(
            ProcessState { uptime_sec: Some(elapsed), ..r.state },
        ),
{
}

/// Law: a process that exits after a stop was asked for is `Stopped`, never
/// `Failed`; one that exits without a stop request is `Failed`.
pub proof fn law_exit_after_stop_is_stopped(r: ProcessRecord, exit_code: Option<i32>)
    ensures
        is_active(r.state.state) ==> exited_spec(stop_spec(r), exit_code).state == ended_state(
            ProcessStateKind::Stopped,
            exit_code,
        ),
        !r.stopping ==> exited_spec(r, exit_code).state == ended_state(
            ProcessStateKind::Failed,
            exit_code,
        ),
{
}

/// Law: a completed stop leaves no stop request behind, so a later run that
/// crashes is reported as `Failed`.
pub proof fn law_stop_request_does_not_outlive_its_run(
    r: ProcessRecord,
    stop_code: Option<i32>,
    pid: Option<u32>,
    now: i64,
    crash_code: Option<i32>,
)
    ensures
        exited_spec(
            spawned_spec(start_spec(stop_finished_spec(r, stop_code)), pid, now),
            crash_code,
        ).state == ended_state(ProcessStateKind::Failed, crash_code),
{
}

// ---------------------------------------------------------------- ending a child

/// How long a process asked to end may take before it is killed, in milliseconds.
pub const STOP_GRACE_MS: u64 = 5000;

/// How far ending a child has got.
#[derive(Debug, Clone, Copy, PartialEq, Eq, Structural)]
pub enum StopStage {
    /// Nothing sent yet.
    Begin,
    /// The terminate signal was sent.
    Terminated,
    /// The kill signal was sent.
    Killed,
}

/// What to do next while ending a child.
#[derive(Debug, Clone, Copy, PartialEq, Eq, Structural)]
pub enum StopAction {
    /// Send the terminate signal (SIGTERM).
    Terminate,
    /// Wait for the child to exit, for at most this many milliseconds.
    WaitUpTo(u64),
    /// Send the kill signal (SIGKILL).
    Kill,
    /// Wait for the child to exit, however long it takes.
    WaitForExit,
    /// The child has exited: collect its exit code.
    Finish,
}

/// The next step of ending a child, given the stage reached, whether it has
/// exited, and how long ago the terminate signal was sent: terminate first;
/// kill only once the child has outlived the grace period of 5000 ms; stop
/// as soon as it has exited.
pub open spec fn stop_step_spec(stage: StopStage, exited: bool, waited_ms: u64) -> StopAction {
    if exited {
        StopAction::Finish
    } else {
        match stage {
            StopStage::Begin => StopAction::Terminate,
            StopStage::Terminated => if waited_ms >= 5000 {
                StopAction::Kill
            } else {
                StopAction::WaitUpTo((5000 - waited_ms) as u64)
            },
            StopStage::Killed => StopAction::WaitForExit,
        }
    }
}

/// Decides the next step of ending a child.
pub fn stop_step(stage: StopStage, exited: bool, waited_ms: u64) -> (a: StopAction)
    ensures
        a == stop_step_spec(stage, exited, waited_ms),
{
    if exited {
        return StopAction::Finish;
    }
    match stage {
        StopStage::Begin => StopAction::Terminate,
        StopStage::Terminated => if waited_ms >= STOP_GRACE_MS {
            StopAction::Kill
        } else {
            StopAction::WaitUpTo(STOP_GRACE_MS - waited_ms)
        },
        StopStage::Killed => StopAction::WaitForExit,
    }
}

/// Law: a child is asked to end before it is killed, and killed only when it
/// is still alive 5000 ms after that; the waits never run past the grace
/// period.
pub proof fn law_terminate_before_kill(stage: StopStage, exited: bool, waited_ms: u64)
    ensures
        stop_step_spec(stage, exited, waited_ms) == StopAction::Kill ==> stage == StopStage::Terminated
            && !exited && waited_ms >= 5000,
        stop_step_spec(StopStage::Begin, exited, waited_ms) != StopAction::Kill,
        stop_step_spec(stage, exited, waited_ms) matches StopAction::WaitUpTo(ms) ==> 0 < ms
            && waited_ms + ms == 5000,
        exited ==> stop_step_spec(stage, exited, waited_ms) == StopAction::Finish,
{
}

} // verus!
