use std::path::{Path, PathBuf};
use iced_recorder::errors::RuntimeBuilderError;
use iced_recorder::runtime::{
    audio_error_event, load_selected_devices, run_step, update, AudioStreamError,
    ContextHeadBuilder, ContextHeadParts, ContextTail, ContextTailBuilder, ContextTailBuilderArgs,
    ControllerAction, DeviceRequest, Event, HeadBuild, HeadBuildEvent, RunStep,
    head_build_step,
};
use iced_recorder::format::SampleFormat;
use iced_recorder::settings::{DeviceName, DeviceSelection};
use iced_recorder::spec::Mp3Spec;

fn named(n: &str) -> DeviceSelection {
    DeviceSelection::Selected(DeviceName(n.to_string()))
}

#[test]
fn device_errors_fall_back_to_defaults() {
    assert!(matches!(update(Event::AudioDeviceNotAvailable), ControllerAction::LoadDefaultDevices));
    assert!(matches!(update(Event::AudioDeviceUnspecifiedError("x".into())), ControllerAction::LoadDefaultDevices));
    assert!(matches!(audio_error_event(AudioStreamError::DeviceNotAvailable), Event::AudioDeviceNotAvailable));
    match audio_error_event(AudioStreamError::BackendSpecific("boom".into())) {
        Event::AudioDeviceUnspecifiedError(m) => assert_eq!(m, "boom"),
        other => panic!("unexpected {:?}", other),
    }
}

#[test]
fn device_selection_needs_both_names() {
    match load_selected_devices(named("mic"), named("spk")) {
        ControllerAction::LoadNamedDevices(i, o) => assert_eq!((i.as_str(), o.as_str()), ("mic", "spk")),
        other => panic!("unexpected {:?}", other),
    }
    assert!(matches!(load_selected_devices(DeviceSelection::Default, named("spk")), ControllerAction::LoadDefaultDevices));
    assert!(matches!(load_selected_devices(named("mic"), DeviceSelection::Default), ControllerAction::LoadDefaultDevices));
    assert!(matches!(update(Event::LoadDevices(named("a"), named("b"))), ControllerAction::LoadNamedDevices(_, _)));
}

#[test]
fn paths_and_stops() {
    match update(Event::LoadPath(PathBuf::from("/tmp/x.mp3"))) {
        ControllerAction::LoadNewPath(p) => assert_eq!(p, Path::new("/tmp/x.mp3")),
        other => panic!("unexpected {:?}", other),
    }
    assert!(matches!(update(Event::Stop), ControllerAction::Nothing));
    assert!(matches!(run_step(Some(Event::Stop)), RunStep::Exit));
    assert!(matches!(run_step(None), RunStep::Exit));
    assert!(matches!(run_step(Some(Event::AudioDeviceNotAvailable)), RunStep::Apply(ControllerAction::LoadDefaultDevices)));
}

#[test]
fn head_builder_checks_senders_in_order() {
    let b: ContextHeadBuilder<u8, u16, u32> = ContextHeadBuilder::default();
    assert!(matches!(b.try_senders(), Err(RuntimeBuilderError::MissingWriterSender)));
    let b: ContextHeadBuilder<u8, u16, u32> = ContextHeadBuilder::default().set_writer_sender(3);
    assert!(matches!(b.try_senders(), Err(RuntimeBuilderError::MissingUiSender)));
    let b: ContextHeadBuilder<u8, u16, u32> = ContextHeadBuilder::default().set_app_sender(1).set_writer_sender(3);
    assert!(matches!(b.try_senders(), Err(RuntimeBuilderError::MissingEventsSender)));
    let b: ContextHeadBuilder<u8, u16, u32> = ContextHeadBuilder::default().set_events_sender(2).set_app_sender(1);
    assert!(matches!(b.try_senders(), Err(RuntimeBuilderError::MissingWriterSender)));
    let parts = ContextHeadBuilder::default()
        .set_app_sender(1u8)
        .set_events_sender(2u16)
        .set_writer_sender(3u32)
        .set_devices("mic", "spk")
        .try_senders()
        .ok()
        .unwrap();
    assert_eq!((parts.app_sender, parts.events_sender, parts.writer_sender), (1, 2, 3));
    assert_eq!(parts.mic_name, named("mic"));
    assert_eq!(parts.speaker_name, named("spk"));
}

#[test]
fn head_builder_device_requests() {
    let b: ContextHeadBuilder<u8, u8, u8> = ContextHeadBuilder::default();
    assert!(matches!(b.requested_devices(), DeviceRequest::Default));
    let b: ContextHeadBuilder<u8, u8, u8> = ContextHeadBuilder::default().set_devices("m", "s");
    match b.requested_devices() {
        DeviceRequest::Named(m, s) => assert_eq!((m.as_str(), s.as_str()), ("m", "s")),
        other => panic!("unexpected {:?}", other),
    }
    assert!(matches!(
        ContextHeadBuilder::<u8, u8, u8>::try_devices(&named("m"), &DeviceSelection::Default),
        DeviceRequest::Default
    ));
    let rebuilt: ContextHeadBuilder<u8, u8, u8> = ContextHeadBuilder::from_parts(ContextHeadParts {
        mic_name: named("m"),
        speaker_name: named("s"),
        app_sender: 1,
        events_sender: 2,
        writer_sender: 3,
    });
    assert!(rebuilt.try_senders().is_ok());
}

struct FakeWriter {
    path: PathBuf,
    channel: u32,
}


fn spec() -> Mp3Spec {
    Mp3Spec { channels: 2, sample_rate: 48000, bits_per_sample: 32 }
}

#[test]
fn tail_builder_needs_a_spec() {
    let b: ContextTailBuilder = ContextTailBuilder::new(PathBuf::from("/tmp/default.wav"));
    match b.try_build(|_spec: Mp3Spec, path: PathBuf| FakeWriter { path, channel: 7 }) {
        Err(RuntimeBuilderError::InvalidWriterConfig(m)) => assert_eq!(m, "missing config in builder"),
        _ => panic!("expected a refusal"),
    }
}

#[test]
fn tail_builder_starts_the_writer_on_the_path() {
    let b: ContextTailBuilder = ContextTailBuilder::new(PathBuf::from("/tmp/default.wav"))
        .set_write_path(PathBuf::from("/tmp/other.wav"))
        .set_write_spec(spec());
    let tail = b.try_build(|_spec: Mp3Spec, path: PathBuf| FakeWriter { path, channel: 7 }).ok().unwrap();
    assert_eq!(tail.writer_thread.path, Path::new("/tmp/other.wav"));
    assert_eq!(tail.get_writer_spec(), spec());
    assert_eq!(tail.get_writer_sender(|w: &FakeWriter| w.channel), 7);
}

#[test]
fn tail_from_args() {
    let tail = ContextTail::new(
        ContextTailBuilderArgs { write_path: PathBuf::from("/tmp/a.wav"), write_spec: spec(), write_recv: 9u32 },
        |path: PathBuf, _spec: Mp3Spec, recv: u32| FakeWriter { path, channel: recv },
    );
    assert_eq!(tail.get_writer_sender(|w: &FakeWriter| w.channel), 9);
    assert_eq!(tail.writer_thread.path, Path::new("/tmp/a.wav"));
    assert_eq!(tail.get_writer_spec(), spec());
}

#[test]
fn device_names_deref_to_str() {
    let n = DeviceName("Headset".to_string());
    assert_eq!(&*n, "Headset");
    assert_eq!(n.len(), 7);
}

#[test]
fn head_build_runs_every_step_in_order() {
    let s = head_build_step(HeadBuild::FindDevices, HeadBuildEvent::Devices(Ok(())));
    assert!(matches!(s, HeadBuild::ReadMicConfig));
    let s = head_build_step(s, HeadBuildEvent::MicConfig(Ok(SampleFormat::F32)));
    assert!(matches!(s, HeadBuild::ReadSpeakerConfig { mic: SampleFormat::F32 }));
    let s = head_build_step(s, HeadBuildEvent::SpeakerConfig(Ok(SampleFormat::F32)));
    assert!(matches!(s, HeadBuild::TakeSenders { mic: SampleFormat::F32, speaker: SampleFormat::F32 }));
    let s = head_build_step(s, HeadBuildEvent::Senders(Ok(())));
    assert!(matches!(s, HeadBuild::BuildMicStream { speaker: SampleFormat::F32 }));
    let s = head_build_step(s, HeadBuildEvent::MicStream(Ok(())));
    assert!(matches!(s, HeadBuild::BuildSpeakerStream));
    let s = head_build_step(s, HeadBuildEvent::SpeakerStream(Ok(())));
    assert!(matches!(s, HeadBuild::Ready));
}

#[test]
fn head_build_stops_at_the_first_failure() {
    let s = head_build_step(
        HeadBuild::FindDevices,
        HeadBuildEvent::Devices(Err(RuntimeBuilderError::GetIoDeviceError("input".to_string(), "none".to_string()))),
    );
    assert!(matches!(s, HeadBuild::Failed(RuntimeBuilderError::GetIoDeviceError(ref r, _)) if r == "input"));
    let s = head_build_step(HeadBuild::ReadMicConfig, HeadBuildEvent::MicConfig(Err("busy".to_string())));
    assert!(matches!(s, HeadBuild::Failed(RuntimeBuilderError::GetIoDeviceConfigError(ref m)) if m == "busy"));
    let s = head_build_step(
        HeadBuild::ReadSpeakerConfig { mic: SampleFormat::F32 },
        HeadBuildEvent::SpeakerConfig(Err("gone".to_string())),
    );
    assert!(matches!(s, HeadBuild::Failed(RuntimeBuilderError::GetIoDeviceConfigError(ref m)) if m == "gone"));
    let s = head_build_step(
        HeadBuild::TakeSenders { mic: SampleFormat::F32, speaker: SampleFormat::F32 },
        HeadBuildEvent::Senders(Err(RuntimeBuilderError::MissingWriterSender)),
    );
    assert!(matches!(s, HeadBuild::Failed(RuntimeBuilderError::MissingWriterSender)));
    let s = head_build_step(
        HeadBuild::BuildMicStream { speaker: SampleFormat::F32 },
        HeadBuildEvent::MicStream(Err("no stream".to_string())),
    );
    assert!(matches!(s, HeadBuild::Failed(RuntimeBuilderError::BuildStreamError(ref m)) if m == "no stream"));
    let s = head_build_step(HeadBuild::BuildSpeakerStream, HeadBuildEvent::SpeakerStream(Err("lost".to_string())));
    assert!(matches!(s, HeadBuild::Failed(RuntimeBuilderError::BuildStreamError(ref m)) if m == "lost"));
}

#[test]
fn head_build_refuses_formats_other_than_f32() {
    let s = head_build_step(
        HeadBuild::TakeSenders { mic: SampleFormat::I16, speaker: SampleFormat::F32 },
        HeadBuildEvent::Senders(Ok(())),
    );
    assert!(matches!(s, HeadBuild::Failed(RuntimeBuilderError::UnsupportedSampleFormat(SampleFormat::I16, ref side)) if side == "input"));
    let s = head_build_step(HeadBuild::BuildMicStream { speaker: SampleFormat::U8 }, HeadBuildEvent::MicStream(Ok(())));
    assert!(matches!(s, HeadBuild::Failed(RuntimeBuilderError::UnsupportedSampleFormat(SampleFormat::U8, ref side)) if side == "output"));
}

#[test]
fn head_build_ignores_an_outcome_out_of_turn() {
    let s = head_build_step(HeadBuild::ReadMicConfig, HeadBuildEvent::SpeakerStream(Ok(())));
    assert!(matches!(s, HeadBuild::ReadMicConfig));
    let s = head_build_step(HeadBuild::Ready, HeadBuildEvent::Devices(Ok(())));
    assert!(matches!(s, HeadBuild::Ready));
    let s = head_build_step(
        HeadBuild::Failed(RuntimeBuilderError::MissingUiSender),
        HeadBuildEvent::Senders(Ok(())),
    );
    assert!(matches!(s, HeadBuild::Failed(RuntimeBuilderError::MissingUiSender)));
}
