use std::path::{Path, PathBuf};
use iced_recorder::errors::RecorderError;
use iced_recorder::ui::{
    gen_record_button, progress_step, title, ProgressStep, RecordState, RecorderAction, RecorderMessage,
    RecorderSession, UiMessage, UiUpdate,
};

fn to_db(amp: f32) -> f32 {
    20.0 * amp.abs().log10()
}

#[test]
fn pulses_become_decibels() {
    match progress_step(Some(UiUpdate::Pulse(0.1f32)), to_db) {
        ProgressStep::Emit(UiMessage::Decibel(d)) => assert!((d + 20.0).abs() < 1e-4),
        other => panic!("unexpected {:?}", other),
    }
    assert!(matches!(progress_step(Some(UiUpdate::<f32>::AudioIoError), to_db), ProgressStep::Emit(UiMessage::AudioIoError)));
    assert!(matches!(progress_step(Some(UiUpdate::<f32>::Stop), to_db), ProgressStep::Finish));
    assert!(matches!(progress_step(None, to_db), ProgressStep::Skip));
}

#[test]
fn record_button_toggles() {
    let (label, msg) = gen_record_button::<f32>(RecordState::Start);
    assert_eq!(label, "Stop [Rec]");
    assert!(matches!(msg, RecorderMessage::Stop));
    let (label, msg) = gen_record_button::<f32>(RecordState::Stop);
    assert_eq!(label, "Start [Rec]");
    assert!(matches!(msg, RecorderMessage::Start));
    assert_eq!(title(), "A naive two stream rusty recorder");
}

#[test]
fn session_starts_and_stops() {
    let mut s = RecorderSession::new(PathBuf::from("/rec/recorded.wav"), 0.0f32, 3, 2);
    assert_eq!(s.get_state(), RecordState::Stop);
    let r: Result<(), RecorderError> = s.record_started(Err(RecorderError::StreamConfigError("no".into())));
    assert!(r.is_err());
    assert_eq!(s.get_state(), RecordState::Stop);
    assert!(s.record_started(Ok::<u8, RecorderError>(5)).is_ok());
    assert_eq!(s.get_state(), RecordState::Start);
    s.select_file_path(Some(PathBuf::from("/elsewhere.wav")));
    assert_eq!(s.recording_path(), Path::new("/elsewhere.wav"));
    s.select_file_path(None);
    assert_eq!(s.recording_path(), Path::new("/elsewhere.wav"));
    s.record_stopped();
    assert_eq!(s.get_state(), RecordState::Stop);
    assert_eq!(s.recording_path(), Path::new("/rec/recorded.wav"));
}

#[test]
fn session_levels_and_device_counts() {
    let mut s = RecorderSession::new(PathBuf::from("/p"), 0.0f32, 3, 2);
    s.pulse_update(-12.5);
    assert_eq!(*s.get_volume(), -12.5);
    assert!(!s.to_reload_devices(3, 2));
    assert!(s.to_reload_devices(4, 2));
    assert!(s.to_reload_devices(3, 1));
}

#[test]
fn session_update_dispatches_each_message() {
    let mut s = RecorderSession::new(PathBuf::from("/p"), 0.0f32, 1, 1);
    assert!(matches!(s.update(RecorderMessage::Start), RecorderAction::StartRecording));
    assert_eq!(s.get_state(), RecordState::Stop);
    s.record_started::<()>(Ok(())).unwrap();
    assert_eq!(s.get_state(), RecordState::Start);
    assert!(matches!(s.update(RecorderMessage::Stop), RecorderAction::StopRecording));
    assert_eq!(s.get_state(), RecordState::Stop);
    match s.update(RecorderMessage::SettingsSelectInputDevice("Mic A".to_string())) {
        RecorderAction::SelectInputDevice(n) => assert_eq!(n, "Mic A"),
        _ => panic!("expected an input device switch"),
    }
    match s.update(RecorderMessage::SettingsSelectOutputDevice("Out B".to_string())) {
        RecorderAction::SelectOutputDevice(n) => assert_eq!(n, "Out B"),
        _ => panic!("expected an output device switch"),
    }
    assert!(matches!(s.update(RecorderMessage::SettingsSyncIoDevices), RecorderAction::SyncIoDevices));
    assert!(matches!(s.update(RecorderMessage::SettingsSelectFilePath), RecorderAction::PickFilePath));
    assert!(matches!(s.update(RecorderMessage::PulseUpdate(-3.0)), RecorderAction::Nothing));
    assert_eq!(*s.get_volume(), -3.0);
    match s.update(RecorderMessage::Error(RecorderError::StreamFrameSendError)) {
        RecorderAction::ShowError(RecorderError::StreamFrameSendError) => {}
        _ => panic!("expected the error to be shown"),
    }
    assert_eq!(s.recording_path(), Path::new("/p"));
    assert_eq!(s.get_state(), RecordState::Stop);
}
