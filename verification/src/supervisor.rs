//! Decision logic of the child-process supervisor.
//!
//! The runner that owns the operating-system resources waits concurrently
//! for the child to complete and for a termination request, and feeds each
//! observed event through [`supervisor_step`]; the step says what to do
//! next (forward a graceful termination, force-kill) and when an outcome is
//! final.  Exit-code translation follows the sysexits convention: setup
//! failures map to 71, an I/O failure to the OS error number (1 when there
//! is none), a force-killed child and a child without an exit code to 1.

use vstd::prelude::*;

use crate::status::Status;

verus! {

/// How a completed child process ended.
#[derive(Clone, Copy, PartialEq, Eq, Debug)]
pub enum ChildExit {
    /// The child exited with this code.
    Code(i32),
    /// The platform reports no code (for example, killed by a signal).
    NoCode,
}

/// Why supervising a child failed.  Payloads carry the OS error number,
/// when the platform reports one.
#[derive(Clone, Copy, PartialEq, Eq, Debug)]
pub enum ForkError {
    /// The child executable could not be started; non-retryable.
    FailedToFork(Option<i32>),
    /// The termination listener could not be registered.
    FailedToRegisterSignalHandler(Option<i32>),
    /// Waiting on the child failed at the OS level.
    IoError(Option<i32>),
    /// Graceful forwarding is unsupported and the child was force-killed,
    /// so no exit code can be trusted.
    Killed,
}

impl ForkError {
    /// The process exit code this failure translates to.
    pub open spec fn spec_exit_code(&self) -> int {
        match *self {
            ForkError::FailedToFork(_) => 71,
            ForkError::FailedToRegisterSignalHandler(_) => 71,
            ForkError::IoError(os) => match os {
                Some(c) => c as int,
                None => 1,
            },
            ForkError::Killed => 1,
        }
    }

    /// Translates the failure to a process exit code: spawn and listener
    /// setup failures map to 71 (the sysexits "service unavailable" class),
    /// an I/O failure to the underlying OS error number or 1, a killed
    /// child to 1.
    pub fn suggested_exit_code(&self) -> (r: i32)
        ensures
            r as int == self.spec_exit_code(),
    {
        match self {
            ForkError::FailedToFork(_) => 71,
            ForkError::FailedToRegisterSignalHandler(_) => 71,
            ForkError::IoError(os) => match os {
                Some(c) => *c,
                None => 1,
            },
            ForkError::Killed => 1,
        }
    }
}

/// The supervisor's state: the child is running (with a note of whether a
/// graceful termination was already forwarded), or it has terminated.
#[derive(Clone, Copy, PartialEq, Eq, Debug)]
pub enum SupervisorState {
    Running { termination_forwarded: bool },
    Terminated,
}

/// One event observed while supervising.
#[derive(Clone, Copy, PartialEq, Eq, Debug)]
pub enum SupervisorEvent {
    /// The child completed on its own with this status.
    ChildCompleted(ChildExit),
    /// The OS delivered a termination request to the supervisor itself.
    TerminationRequested,
    /// Waiting on the child failed; payload is the OS error number.
    WaitFailed(Option<i32>),
}

/// What the runner must do after a step.
#[derive(Clone, Copy, PartialEq, Eq, Debug)]
pub enum SupervisorAction {
    /// Send the child a graceful termination request, then keep waiting.
    ForwardTermination,
    /// Force-kill the child (platforms without graceful forwarding).
    ForceKill,
}

/// The result of feeding one event to the supervisor.
#[derive(Clone, Copy, PartialEq, Eq, Debug)]
pub struct SupervisorStep {
    pub state: SupervisorState,
    pub action: Option<SupervisorAction>,
    /// The final outcome, once one exists.
    pub outcome: Option<Result<ChildExit, ForkError>>,
}

/// The transition relation of the supervisor, one event at a time.
///
/// Completion always wins: a completed child yields its own status and no
/// signal is ever forwarded to it.  A termination request while running is
/// forwarded gracefully where the platform supports it, and the supervisor
/// keeps waiting for the child's own exit; where it does not, the child is
/// force-killed and the dedicated `Killed` outcome is reported.  Events
/// arriving after termination are tolerated no-ops.
pub open spec fn spec_supervisor_step(
    state: SupervisorState,
    event: SupervisorEvent,
    forwarding_supported: bool,
) -> SupervisorStep {
    match state {
        SupervisorState::Terminated => SupervisorStep {
            state: SupervisorState::Terminated,
            action: None,
            outcome: None,
        },
        SupervisorState::Running { termination_forwarded } => match event {
            SupervisorEvent::ChildCompleted(e) => SupervisorStep {
                state: SupervisorState::Terminated,
                action: None,
                outcome: Some(Ok(e)),
            },
            SupervisorEvent::TerminationRequested => if forwarding_supported {
                SupervisorStep {
                    state: SupervisorState::Running { termination_forwarded: true },
                    action: Some(SupervisorAction::ForwardTermination),
                    outcome: None,
                }
            } else {
                SupervisorStep {
                    state: SupervisorState::Terminated,
                    action: Some(SupervisorAction::ForceKill),
                    outcome: Some(Err(ForkError::Killed)),
                }
            },
            SupervisorEvent::WaitFailed(os) => SupervisorStep {
                state: SupervisorState::Terminated,
                action: None,
                outcome: Some(Err(ForkError::IoError(os))),
            },
        },
    }
}

/// Executable form of [`spec_supervisor_step`].
pub fn supervisor_step(
    state: SupervisorState,
    event: SupervisorEvent,
    forwarding_supported: bool,
) -> (r: SupervisorStep)
    ensures
        r == spec_supervisor_step(state, event, forwarding_supported),
{
    match state {
        SupervisorState::Terminated => SupervisorStep {
            state: SupervisorState::Terminated,
            action: None,
            outcome: None,
        },
        SupervisorState::Running { termination_forwarded: _ } => match event {
            SupervisorEvent::ChildCompleted(e) => SupervisorStep {
                state: SupervisorState::Terminated,
                action: None,
                outcome: Some(Ok(e)),
            },
            SupervisorEvent::TerminationRequested => if forwarding_supported {
                SupervisorStep {
                    state: SupervisorState::Running { termination_forwarded: true },
                    action: Some(SupervisorAction::ForwardTermination),
                    outcome: None,
                }
            } else {
                SupervisorStep {
                    state: SupervisorState::Terminated,
                    action: Some(SupervisorAction::ForceKill),
                    outcome: Some(Err(ForkError::Killed)),
                }
            },
            SupervisorEvent::WaitFailed(os) => SupervisorStep {
                state: SupervisorState::Terminated,
                action: None,
                outcome: Some(Err(ForkError::IoError(os))),
            },
        },
    }
}

/// A termination request forwarded to a running child never ends the
/// supervision by itself: the supervisor forwards the request, keeps
/// waiting, and then reports the child's own eventual exit status.
pub proof fn lemma_forwarded_termination_reports_child_exit(
    termination_forwarded: bool,
    e: ChildExit,
)
    ensures
        ({
            let first = spec_supervisor_step(
                SupervisorState::Running { termination_forwarded },
                SupervisorEvent::TerminationRequested,
                true,
            );
            let second = spec_supervisor_step(
                first.state,
                SupervisorEvent::ChildCompleted(e),
                true,
            );
            &&& first.action == Some(SupervisorAction::ForwardTermination)
            &&& first.outcome is None
            &&& first.state matches SupervisorState::Running { .. }
            &&& second.outcome == Some(Result::<ChildExit, ForkError>::Ok(e))
            &&& second.state is Terminated
        }),
{
}

/// A child that completed is never signalled: completion takes precedence
/// and later events against the terminated supervisor are no-ops.
pub proof fn lemma_no_signal_after_completion(e: ChildExit, ev: SupervisorEvent, fwd: bool)
    ensures
        ({
            let first = spec_supervisor_step(
                SupervisorState::Running { termination_forwarded: false },
                SupervisorEvent::ChildCompleted(e),
                fwd,
            );
            let second = spec_supervisor_step(first.state, ev, fwd);
            &&& first.action is None
            &&& first.outcome == Some(Result::<ChildExit, ForkError>::Ok(e))
            &&& second.action is None
            &&& second.outcome is None
        }),
{
}

/// What the orchestrator records for one supervised command.
#[derive(Clone, Copy, PartialEq, Eq, Debug)]
pub struct RunReport {
    /// The exit code this process reports.
    pub exit_code: i32,
    /// The status recorded on the span and in metric labels.
    pub status: Status,
    /// Whether the child was started at all: false exactly for a spawn
    /// failure, where only the setup failure is recorded.
    pub child_started: bool,
}

/// The report for a supervision outcome: a clean exit reports the child's
/// own code (success exactly on zero), a child without a code reports 1,
/// and failures report their translated exit code with status failure.
pub open spec fn spec_report_run(outcome: Result<ChildExit, ForkError>) -> RunReport {
    match outcome {
        Ok(ChildExit::Code(c)) => RunReport {
            exit_code: c,
            status: if c == 0 {
                Status::Success
            } else {
                Status::Failure
            },
            child_started: true,
        },
        Ok(ChildExit::NoCode) => RunReport {
            exit_code: 1,
            status: Status::Failure,
            child_started: true,
        },
        Err(e) => RunReport {
            exit_code: e.spec_exit_code() as i32,
            status: Status::Failure,
            child_started: !(e matches ForkError::FailedToFork(_)),
        },
    }
}

/// Executable form of [`spec_report_run`].
pub fn report_run(outcome: &Result<ChildExit, ForkError>) -> (r: RunReport)
    ensures
        r == spec_report_run(*outcome),
{
    match outcome {
        Ok(ChildExit::Code(c)) => RunReport {
            exit_code: *c,
            status: if *c == 0 {
                Status::Success
            } else {
                Status::Failure
            },
            child_started: true,
        },
        Ok(ChildExit::NoCode) => RunReport {
            exit_code: 1,
            status: Status::Failure,
            child_started: true,
        },
        Err(e) => RunReport {
            exit_code: e.suggested_exit_code(),
            status: Status::Failure,
            child_started: !(matches!(e, ForkError::FailedToFork(_))),
        },
    }
}

} // verus!
