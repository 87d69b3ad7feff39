// Tests of the shared state cell: transitions, the submission gate, and the
// rejection reasons.

use actor::ActorCore;
use actor::ActorState;
use actor::SendError;
use actor::TaskOutcome;

#[test]
fn new_core_is_running_without_message() {
    let core = ActorCore::new();
    assert_eq!(core.state(), ActorState::Running);
    assert_eq!(core.message(), None);
}

#[test]
fn success_keeps_running() {
    let mut core = ActorCore::new();
    let cont = core.worker_step(TaskOutcome::Success);
    assert!(cont);
    assert_eq!(core.state(), ActorState::Running);
    assert_eq!(core.message(), None);
}

#[test]
fn stop_request_reaches_stopped_with_default_reason() {
    let mut core = ActorCore::new();
    let cont = core.worker_step(TaskOutcome::StopRequested);
    assert!(!cont);
    assert_eq!(core.state(), ActorState::Stopped);
    assert_eq!(core.message(), Some("Actor stopped".to_string()));
}

#[test]
fn failure_reaches_error_with_reason() {
    let mut core = ActorCore::new();
    let cont = core.worker_step(TaskOutcome::Failure("Ouch!".to_string()));
    assert!(!cont);
    assert_eq!(core.state(), ActorState::Error);
    assert_eq!(core.message(), Some("Ouch!".to_string()));
}

#[test]
fn halted_core_ignores_further_outcomes() {
    let mut core = ActorCore::new();
    core.worker_step(TaskOutcome::Failure("Ouch!".to_string()));
    let cont = core.worker_step(TaskOutcome::Success);
    assert!(!cont);
    assert_eq!(core.state(), ActorState::Error);
    assert_eq!(core.message(), Some("Ouch!".to_string()));
    let cont = core.worker_step(TaskOutcome::StopRequested);
    assert!(!cont);
    assert_eq!(core.state(), ActorState::Error);
    assert_eq!(core.message(), Some("Ouch!".to_string()));
}

#[test]
fn gate_passes_while_running() {
    let core = ActorCore::new();
    assert_eq!(core.submission_gate(), Ok(()));
}

#[test]
fn gate_rejects_after_stop() {
    let mut core = ActorCore::new();
    core.worker_step(TaskOutcome::StopRequested);
    assert_eq!(core.submission_gate(), Err(SendError::ActorStopped));
}

#[test]
fn gate_rejects_after_error_with_stored_reason() {
    let mut core = ActorCore::new();
    core.worker_step(TaskOutcome::Failure("Ouch!".to_string()));
    assert_eq!(
        core.submission_gate(),
        Err(SendError::ActorFailed("Ouch!".to_string()))
    );
}

#[test]
fn closed_channel_error_follows_the_state() {
    let running = ActorCore::new();
    assert_eq!(running.closed_channel_error(), SendError::SendChannelClosed);

    let mut stopped = ActorCore::new();
    stopped.worker_step(TaskOutcome::StopRequested);
    assert_eq!(stopped.closed_channel_error(), SendError::ActorStopped);

    let mut failed = ActorCore::new();
    failed.worker_step(TaskOutcome::Failure("Ouch!".to_string()));
    assert_eq!(
        failed.closed_channel_error(),
        SendError::ActorFailed("Ouch!".to_string())
    );
}

#[test]
fn rejection_reasons_read_as_expected() {
    assert_eq!(SendError::ActorStopped.reason(), "Actor is stopped");
    assert_eq!(
        SendError::ActorFailed("Ouch!".to_string()).reason(),
        "Ouch!"
    );
    assert_eq!(SendError::SendChannelClosed.reason(), "Actor send error");
}
