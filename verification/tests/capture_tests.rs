use wave_plotter::capture::AudioInput;
use wave_plotter::capture::CaptureError;
use wave_plotter::capture::CaptureState;
use wave_plotter::capture::StreamAction;

#[test]
fn start_from_idle_builds_and_captures() {
    let mut audio = AudioInput::new();
    assert_eq!(audio.current_state(), CaptureState::Idle);
    assert!(!audio.is_stream_open());
    let action = audio.start_capture();
    assert_eq!(action, StreamAction::BuildAndPlay);
    assert_eq!(audio.current_state(), CaptureState::Capturing);
    assert!(audio.is_stream_open());
}

#[test]
fn pause_from_capturing_suspends() {
    let mut audio = AudioInput::new();
    audio.start_capture();
    let action = audio.pause_capture();
    assert_eq!(action, StreamAction::Suspend);
    assert_eq!(audio.current_state(), CaptureState::Paused);
    // The device is not released.
    assert!(audio.is_stream_open());
}

#[test]
fn pause_from_idle_is_benign_and_changes_nothing() {
    let mut audio = AudioInput::new();
    let action = audio.pause_capture();
    assert_eq!(action, StreamAction::Stay);
    assert_eq!(audio.current_state(), CaptureState::Idle);
    assert!(!audio.is_stream_open());
    assert_eq!(
        audio.nothing_to_pause_notice(),
        "Trying to pause an audio capture, but no capture was started."
    );
}

#[test]
fn start_while_capturing_is_idempotent() {
    let mut audio = AudioInput::new();
    assert_eq!(audio.start_capture(), StreamAction::BuildAndPlay);
    // A second start asks for no second stream object.
    assert_eq!(audio.start_capture(), StreamAction::Stay);
    assert_eq!(audio.current_state(), CaptureState::Capturing);
    assert!(audio.is_stream_open());
}

#[test]
fn start_from_paused_resumes_the_existing_stream() {
    let mut audio = AudioInput::new();
    audio.start_capture();
    audio.pause_capture();
    let action = audio.start_capture();
    assert_eq!(action, StreamAction::Resume);
    assert_eq!(audio.current_state(), CaptureState::Capturing);
}

#[test]
fn fatal_errors_carry_their_messages() {
    assert_eq!(CaptureError::NoInputDevice.describe(), "No input device available");
    assert_eq!(
        CaptureError::UnsupportedConfig.describe(),
        "Unsupported input stream configuration"
    );
    assert_eq!(
        CaptureError::StreamBuildFailure.describe(),
        "Could not build the input stream"
    );
}
