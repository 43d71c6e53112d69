use std::io::Read;

use buildany::ExecutionOutcome;
use buildany::RunnerEvent;
use buildany::RunnerState;
use buildany::outcome;
use buildany::step;

// Runs `sh -c script` the way the dispatcher does — standard error merged
// into standard output, exit status relayed, the runner state machine
// advanced on every step — and returns the forwarded bytes and the outcome.
fn drive(script: &str) -> (Vec<u8>, ExecutionOutcome) {
    let expr = duct::cmd("sh", ["-c", script]).stderr_to_stdout().unchecked();
    let mut state = RunnerState::Idle;
    let mut collected: Vec<u8> = Vec::new();

    let mut reader = match expr.reader() {
        Ok(r) => {
            state = step(state, RunnerEvent::Launched);
            state = step(state, RunnerEvent::Captured);
            r
        }
        Err(e) => {
            state = step(state, RunnerEvent::LaunchError);
            let out = outcome(&state).expect("a failed launch is terminal");
            panic!("launch failed: {e}; outcome {out:?}");
        }
    };

    let mut buf = [0u8; 1024];
    loop {
        match reader.read(&mut buf) {
            Ok(0) => {
                state = step(state, RunnerEvent::OutEof);
                state = step(state, RunnerEvent::ErrEof);
                break;
            }
            Ok(n) => {
                collected.extend_from_slice(&buf[..n]);
                state = step(state, RunnerEvent::OutData);
            }
            Err(_) => {
                state = step(state, RunnerEvent::RelayError);
                break;
            }
        }
    }
    assert_eq!(state, RunnerState::Drained, "both streams must drain first");

    let output = reader
        .try_wait()
        .expect("waiting on the child must succeed")
        .expect("the child has exited once its output hit end-of-stream");
    let status = output.status.code().unwrap_or(-1);
    state = step(state, RunnerEvent::Exited(status));
    let out = outcome(&state).expect("a completed run reports an outcome");
    (collected, out)
}

#[test]
fn test_child_output_order_preserved() {
    let (bytes, out) = drive("echo one; echo two; echo three");
    assert_eq!(bytes, b"one\ntwo\nthree\n".to_vec());
    assert_eq!(out, ExecutionOutcome::Exited(0));
    assert_eq!(out.exit_code(), 0);
}

#[test]
fn test_child_exit_status_42() {
    let (bytes, out) = drive("exit 42");
    assert!(bytes.is_empty());
    assert_eq!(out, ExecutionOutcome::Exited(42));
    assert_eq!(out.exit_code(), 42);
}

#[test]
fn test_bursty_interleaved_streams_drain() {
    // A child that writes large, interleaved, bursty output to both standard
    // output and standard error, without reading any input, must be drained
    // to completion without the runner hanging.
    let line_out = "o".repeat(40);
    let line_err = "e".repeat(40);
    let script = format!(
        "i=0; while [ $i -lt 2000 ]; do echo {line_out}; echo {line_err} 1>&2; i=$((i+1)); done"
    );
    let (bytes, out) = drive(&script);
    assert_eq!(bytes.len(), 2000 * 2 * 41);
    assert_eq!(out, ExecutionOutcome::Exited(0));
}
