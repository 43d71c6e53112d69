use buildany::ExecutionOutcome;
use buildany::RunFailure;
use buildany::RunnerEvent;
use buildany::RunnerState;
use buildany::is_terminal;
use buildany::outcome;
use buildany::step;

#[test]
fn test_happy_path_completes() {
    let mut s = RunnerState::Idle;
    s = step(s, RunnerEvent::Launched);
    assert_eq!(s, RunnerState::Spawned);
    s = step(s, RunnerEvent::Captured);
    assert_eq!(
        s,
        RunnerState::Streaming {
            out_open: true,
            err_open: true
        }
    );
    s = step(s, RunnerEvent::OutData);
    s = step(s, RunnerEvent::ErrData);
    s = step(s, RunnerEvent::OutData);
    s = step(s, RunnerEvent::OutEof);
    assert_eq!(
        s,
        RunnerState::Streaming {
            out_open: false,
            err_open: true
        }
    );
    assert_eq!(outcome(&s), None);
    s = step(s, RunnerEvent::ErrEof);
    assert_eq!(s, RunnerState::Drained);
    s = step(s, RunnerEvent::Exited(0));
    assert_eq!(s, RunnerState::Completed(0));
    assert!(is_terminal(&s));
    assert_eq!(outcome(&s), Some(ExecutionOutcome::Exited(0)));
    assert_eq!(ExecutionOutcome::Exited(0).exit_code(), 0);
}

#[test]
fn test_status_forty_two_is_an_outcome() {
    // A child that exits with status 42 yields the outcome carrying 42,
    // never an internal failure of the runner.
    let mut s = RunnerState::Drained;
    s = step(s, RunnerEvent::Exited(42));
    assert_eq!(s, RunnerState::Completed(42));
    assert_eq!(outcome(&s), Some(ExecutionOutcome::Exited(42)));
    assert!(!matches!(outcome(&s), Some(ExecutionOutcome::Failed(_))));
    assert_eq!(ExecutionOutcome::Exited(42).exit_code(), 42);
}

#[test]
fn test_eof_in_either_order_drains() {
    let start = RunnerState::Streaming {
        out_open: true,
        err_open: true,
    };
    let a = step(step(start, RunnerEvent::OutEof), RunnerEvent::ErrEof);
    assert_eq!(a, RunnerState::Drained);
    let b = step(step(start, RunnerEvent::ErrEof), RunnerEvent::OutEof);
    assert_eq!(b, RunnerState::Drained);
}

#[test]
fn test_spawn_failure() {
    let s = step(RunnerState::Idle, RunnerEvent::LaunchError);
    assert_eq!(s, RunnerState::Failed(RunFailure::SpawnFailed));
    assert_eq!(
        outcome(&s),
        Some(ExecutionOutcome::Failed(RunFailure::SpawnFailed))
    );
    assert_eq!(ExecutionOutcome::Failed(RunFailure::SpawnFailed).exit_code(), 2);
    assert_eq!(
        RunFailure::SpawnFailed.message(),
        "the build tool could not be launched".to_string()
    );
}

#[test]
fn test_capture_failure() {
    let s = step(RunnerState::Spawned, RunnerEvent::CaptureError);
    assert_eq!(s, RunnerState::Failed(RunFailure::StreamCaptureFailed));
    assert_eq!(
        RunFailure::StreamCaptureFailed.message(),
        "the build tool's output could not be captured".to_string()
    );
}

#[test]
fn test_relay_failure() {
    let streaming = RunnerState::Streaming {
        out_open: true,
        err_open: false,
    };
    let s = step(streaming, RunnerEvent::RelayError);
    assert_eq!(s, RunnerState::Failed(RunFailure::StreamIOError));
    assert_eq!(
        RunFailure::StreamIOError.message(),
        "i/o error while relaying the build tool's output".to_string()
    );
}

#[test]
fn test_terminal_states_absorb_events() {
    let done = RunnerState::Completed(1);
    assert_eq!(step(done, RunnerEvent::OutData), done);
    assert_eq!(step(done, RunnerEvent::Exited(0)), done);
    let failed = RunnerState::Failed(RunFailure::SpawnFailed);
    assert_eq!(step(failed, RunnerEvent::Launched), failed);
    assert_eq!(step(failed, RunnerEvent::Exited(0)), failed);
}

#[test]
fn test_outcome_only_at_rest() {
    assert_eq!(outcome(&RunnerState::Idle), None);
    assert_eq!(outcome(&RunnerState::Spawned), None);
    assert_eq!(
        outcome(&RunnerState::Streaming {
            out_open: true,
            err_open: true
        }),
        None
    );
    assert_eq!(outcome(&RunnerState::Drained), None);
    assert!(!is_terminal(&RunnerState::Drained));
    assert!(is_terminal(&RunnerState::Completed(0)));
    assert!(is_terminal(&RunnerState::Failed(RunFailure::StreamIOError)));
}
