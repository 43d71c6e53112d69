//! The process runner as a state machine.  The runner's unverifiable work —
//! spawning the tool, draining its two output streams, waiting for the exit
//! status — is performed by the caller, who reports each step as an event;
//! the decisions (what each event means for the invocation, when the run is
//! drained, what outcome to report) are made here.
//!
//! An invocation moves `Idle -> Spawned -> Streaming -> Drained ->
//! Completed(status)`, with `Failed(kind)` reachable from the corresponding
//! earlier states.  Completion is only reachable once both streams have been
//! drained to end-of-stream, which is the deadlock-avoidance obligation: the
//! caller must keep reading both pipes until each one ends, and only then
//! wait on the child.

use vstd::prelude::*;

verus! {

/// How an invocation failed before the child's own result could be relayed.
#[derive(Debug, Eq, PartialEq, Structural, Copy, Clone)]
pub enum RunFailure {
    /// The tool's executable was missing or could not be launched.
    SpawnFailed,
    /// A handle to one of the child's standard streams could not be obtained.
    StreamCaptureFailed,
    /// An I/O fault interrupted the relaying of the child's output.
    StreamIOError,
}

impl RunFailure {
    /// The message to show a caller on standard error.
    pub fn message(&self) -> (r: String)
        ensures
            *self is SpawnFailed ==> r@ == "the build tool could not be launched"@,
            *self is StreamCaptureFailed ==> r@ == "the build tool's output could not be captured"@,
            *self is StreamIOError ==> r@ == "i/o error while relaying the build tool's output"@,
    {
        match self {
            RunFailure::SpawnFailed => String::from_str("the build tool could not be launched"),
            RunFailure::StreamCaptureFailed => String::from_str(
                "the build tool's output could not be captured",
            ),
            RunFailure::StreamIOError => String::from_str(
                "i/o error while relaying the build tool's output",
            ),
        }
    }
}

/// What an invocation came to: either the child ran to completion and its
/// exit status is relayed unchanged — a non-zero status is the child's
/// result, not a failure of the runner — or the runner itself failed.
#[derive(Debug, Eq, PartialEq, Structural, Copy, Clone)]
pub enum ExecutionOutcome {
    /// The child terminated; its exit status is carried verbatim.
    Exited(i32),
    /// The runner could not launch the child or relay its output.
    Failed(RunFailure),
}

/// Where an invocation stands.
#[derive(Debug, Eq, PartialEq, Structural, Copy, Clone)]
pub enum RunnerState {
    /// Nothing has happened yet.
    Idle,
    /// The child process is running.
    Spawned,
    /// Output is being relayed; each flag records whether that stream has
    /// still to reach end-of-stream.
    Streaming { out_open: bool, err_open: bool },
    /// Both streams reached end-of-stream; the exit status is awaited.
    Drained,
    /// The child terminated with this status.
    Completed(i32),
    /// The invocation failed.
    Failed(RunFailure),
}

/// One step of outside work, as the caller reports it.
#[derive(Debug, Eq, PartialEq, Structural, Copy, Clone)]
pub enum RunnerEvent {
    /// The child process was launched.
    Launched,
    /// The executable could not be launched.
    LaunchError,
    /// Handles to both standard streams were obtained.
    Captured,
    /// A standard stream handle could not be obtained.
    CaptureError,
    /// A chunk of standard output arrived and was forwarded.
    OutData,
    /// A chunk of standard error arrived and was forwarded.
    ErrData,
    /// The child's standard output reached end-of-stream.
    OutEof,
    /// The child's standard error reached end-of-stream.
    ErrEof,
    /// Reading or forwarding a chunk failed.
    RelayError,
    /// The child terminated with this exit status.
    Exited(i32),
}

/// The state an invocation moves to when `event` happens in `state`.  An
/// event that cannot happen in a state (the caller never produces it there)
/// leaves the state unchanged; a terminal state absorbs every event.
pub open spec fn spec_step(state: RunnerState, event: RunnerEvent) -> RunnerState {
    match state {
        RunnerState::Idle => match event {
            RunnerEvent::Launched => RunnerState::Spawned,
            RunnerEvent::LaunchError => RunnerState::Failed(RunFailure::SpawnFailed),
            _ => state,
        },
        RunnerState::Spawned => match event {
            RunnerEvent::Captured => RunnerState::Streaming { out_open: true, err_open: true },
            RunnerEvent::CaptureError => RunnerState::Failed(RunFailure::StreamCaptureFailed),
            _ => state,
        },
        RunnerState::Streaming { out_open, err_open } => match event {
            RunnerEvent::OutData => state,
            RunnerEvent::ErrData => state,
            RunnerEvent::OutEof => if err_open {
                RunnerState::Streaming { out_open: false, err_open }
            } else {
                RunnerState::Drained
            },
            RunnerEvent::ErrEof => if out_open {
                RunnerState::Streaming { out_open, err_open: false }
            } else {
                RunnerState::Drained
            },
            RunnerEvent::RelayError => RunnerState::Failed(RunFailure::StreamIOError),
            _ => state,
        },
        RunnerState::Drained => match event {
            RunnerEvent::Exited(status) => RunnerState::Completed(status),
            _ => state,
        },
        _ => state,
    }
}

/// A state the invocation never leaves.
pub open spec fn spec_is_terminal(state: RunnerState) -> bool {
    state is Completed || state is Failed
}

/// The outcome a state reports: only terminal states report one.
pub open spec fn spec_outcome(state: RunnerState) -> Option<ExecutionOutcome> {
    match state {
        RunnerState::Completed(status) => Some(ExecutionOutcome::Exited(status)),
        RunnerState::Failed(kind) => Some(ExecutionOutcome::Failed(kind)),
        _ => None,
    }
}

/// Advances an invocation by one reported event.
pub fn step(state: RunnerState, event: RunnerEvent) -> (r: RunnerState)
    ensures
        r == spec_step(state, event),
{
    match state {
        RunnerState::Idle => match event {
            RunnerEvent::Launched => RunnerState::Spawned,
            RunnerEvent::LaunchError => RunnerState::Failed(RunFailure::SpawnFailed),
            _ => state,
        },
        RunnerState::Spawned => match event {
            RunnerEvent::Captured => RunnerState::Streaming { out_open: true, err_open: true },
            RunnerEvent::CaptureError => RunnerState::Failed(RunFailure::StreamCaptureFailed),
            _ => state,
        },
        RunnerState::Streaming { out_open, err_open } => match event {
            RunnerEvent::OutData => state,
            RunnerEvent::ErrData => state,
            RunnerEvent::OutEof => if err_open {
                RunnerState::Streaming { out_open: false, err_open }
            } else {
                RunnerState::Drained
            },
            RunnerEvent::ErrEof => if out_open {
                RunnerState::Streaming { out_open, err_open: false }
            } else {
                RunnerState::Drained
            },
            RunnerEvent::RelayError => RunnerState::Failed(RunFailure::StreamIOError),
            _ => state,
        },
        RunnerState::Drained => match event {
            RunnerEvent::Exited(status) => RunnerState::Completed(status),
            _ => state,
        },
        _ => state,
    }
}

/// Whether the invocation has come to rest.
pub fn is_terminal(state: &RunnerState) -> (r: bool)
    ensures
        r == spec_is_terminal(*state),
{
    match state {
        RunnerState::Completed(_) => true,
        RunnerState::Failed(_) => true,
        _ => false,
    }
}

/// The outcome of a finished invocation, or `None` while it is still moving.
pub fn outcome(state: &RunnerState) -> (r: Option<ExecutionOutcome>)
    ensures
        r == spec_outcome(*state),
{
    match state {
        RunnerState::Completed(status) => Some(ExecutionOutcome::Exited(*status)),
        RunnerState::Failed(kind) => Some(ExecutionOutcome::Failed(*kind)),
        _ => None,
    }
}

impl ExecutionOutcome {
    /// The process exit code to propagate: a relayed child status is mirrored
    /// unchanged, and a runner failure maps to the dispatcher's own distinct
    /// non-zero code.
    pub fn exit_code(&self) -> (r: i32)
        ensures
            self matches ExecutionOutcome::Exited(s) ==> r == s,
            self is Failed ==> r == 2,
    {
        match self {
            ExecutionOutcome::Exited(status) => *status,
            ExecutionOutcome::Failed(_) => 2,
        }
    }
}

/// A child that terminates with some status always yields the outcome
/// carrying that very status, never an internal error: stepping a drained
/// invocation with the exit status reports `Exited` of that status, and its
/// mirrored exit code is that status again.
pub proof fn lemma_exit_status_relayed_verbatim(status: i32)
    ensures
        spec_step(RunnerState::Drained, RunnerEvent::Exited(status)) == RunnerState::Completed(
            status,
        ),
        spec_outcome(RunnerState::Completed(status)) == Some(ExecutionOutcome::Exited(status)),
{
}

/// Completion is owed to a full drain: the only step that reaches
/// `Completed` starts from `Drained` — after both streams saw end-of-stream
/// — and consumes the child's exit status.
pub proof fn lemma_completion_only_after_drain(state: RunnerState, event: RunnerEvent)
    requires
        !(state is Completed),
        spec_step(state, event) is Completed,
    ensures
        state is Drained,
        event matches RunnerEvent::Exited(s) && spec_step(state, event) == RunnerState::Completed(
            s,
        ),
{
}

/// A terminal state absorbs every further event: once an invocation has
/// completed or failed, no report changes it.
pub proof fn lemma_terminal_states_absorb(state: RunnerState, event: RunnerEvent)
    requires
        spec_is_terminal(state),
    ensures
        spec_step(state, event) == state,
{
}

/// End-of-stream is permanent: a stream seen closed while streaming never
/// reopens in any later streaming state.
pub proof fn lemma_eof_is_permanent(state: RunnerState, event: RunnerEvent)
    requires
        state matches RunnerState::Streaming { out_open, err_open },
        spec_step(state, event) is Streaming,
    ensures
        !state->Streaming_out_open ==> !spec_step(state, event)->Streaming_out_open,
        !state->Streaming_err_open ==> !spec_step(state, event)->Streaming_err_open,
{
}

/// While an invocation keeps streaming, at least one stream remains to be
/// drained: the event that closes the last open stream leaves `Streaming`
/// for `Drained`, so both end-of-streams strictly precede the drained state.
pub proof fn lemma_streaming_stays_live(state: RunnerState, event: RunnerEvent)
    requires
        state matches RunnerState::Streaming { out_open, err_open } && (out_open || err_open),
        spec_step(state, event) is Streaming,
    ensures
        spec_step(state, event)->Streaming_out_open || spec_step(
            state,
            event,
        )->Streaming_err_open,
{
}

/// Outcomes are reported exactly at rest: a state reports an outcome if and
/// only if it is terminal.
pub proof fn lemma_outcome_iff_terminal(state: RunnerState)
    ensures
        spec_outcome(state) is Some <==> spec_is_terminal(state),
{
}

} // verus!
