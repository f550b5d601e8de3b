use voxta::error::AppError;
use voxta::state::{RecordingState, RecordingStateMachine};

#[test]
fn follows_valid_recording_flow() {
    let mut machine = RecordingStateMachine::default();
    machine.start_recording().unwrap();
    assert_eq!(machine.state(), RecordingState::Recording);
    machine.start_transcribing().unwrap();
    assert_eq!(machine.state(), RecordingState::Transcribing);
    machine.start_inserting().unwrap();
    assert_eq!(machine.state(), RecordingState::Inserting);
    machine.finish();
    assert_eq!(machine.state(), RecordingState::Idle);
}

#[test]
fn prevents_concurrent_recordings() {
    let mut machine = RecordingStateMachine::default();
    machine.start_recording().unwrap();
    assert!(machine.start_recording().is_err());
}

#[test]
fn supports_cancellation_from_recording_only() {
    let mut machine = RecordingStateMachine::default();
    assert!(machine.cancel().is_err());
    machine.start_recording().unwrap();
    machine.cancel().unwrap();
    assert_eq!(machine.state(), RecordingState::Cancelled);
}

#[test]
fn refusal_message_names_the_state() {
    let mut machine = RecordingStateMachine::default();
    match machine.start_transcribing() {
        Err(AppError::State(m)) => assert_eq!(m, "cannot transcribe while Idle"),
        other => panic!("unexpected {other:?}"),
    }
    machine.fail();
    assert_eq!(machine.state(), RecordingState::Error);
    match machine.start_recording() {
        Err(AppError::State(m)) => assert_eq!(m, "cannot start recording while Error"),
        other => panic!("unexpected {other:?}"),
    }
    machine.finish();
    assert!(machine.start_recording().is_ok());
    assert!(machine.start_inserting().is_err());
    assert_eq!(machine.state(), RecordingState::Recording);
}
