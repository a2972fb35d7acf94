//! The recorder's runtime: how it reacts to events from the devices and the user, and the
//! builders of its two halves — the head (capture streams and mixing bridge) and the tail
//! (the writer).
use vstd::prelude::*;
use vstd::string::StringExecFns;
use crate::errors::RuntimeBuilderError;
use crate::settings::{DeviceName, DeviceSelection};
use crate::spec::Mp3Spec;
use std::path::PathBuf;
use crate::format::SampleFormat;
use crate::devices::{check_stream_format, DeviceRole};

verus! {

/// An event the runtime reacts to.
#[derive(Debug, Clone)]
pub enum Event {
    /// Switch to the given input and output devices.
    LoadDevices(DeviceSelection, DeviceSelection),
    /// Record to a new path.
    LoadPath(PathBuf),
    /// A device went away.
    AudioDeviceNotAvailable,
    /// A device reported some other error.
    AudioDeviceUnspecifiedError(String),
    Stop,
}

/// An error an audio stream reports to its error callback.
#[derive(Debug, Clone)]
pub enum AudioStreamError {
    /// The device no longer exists, as when it is unplugged.
    DeviceNotAvailable,
    /// An error particular to the backend, with its message.
    BackendSpecific(String),
}

/// The runtime event that a stream error is turned into.
pub open spec fn spec_audio_error_event(err: AudioStreamError) -> Event {
    match err {
        AudioStreamError::DeviceNotAvailable => Event::AudioDeviceNotAvailable,
        AudioStreamError::BackendSpecific(m) => Event::AudioDeviceUnspecifiedError(m),
    }
}

/// The runtime event that a stream error `err` is turned into.
pub fn audio_error_event(err: AudioStreamError) -> (e: Event)
    ensures
        e == spec_audio_error_event(err),
{
    match err {
        AudioStreamError::DeviceNotAvailable => Event::AudioDeviceNotAvailable,
        AudioStreamError::BackendSpecific(m) => Event::AudioDeviceUnspecifiedError(m),
    }
}

/// What the runtime controller does about an event.
#[derive(Debug, Clone)]
pub enum ControllerAction {
    /// Rebuild the head on the system's default devices.
    LoadDefaultDevices,
    /// Rebuild the head on the named input (first) and output (second) devices.
    LoadNamedDevices(String, String),
    /// Rebuild the tail to write to the given path, and the head to feed it.
    LoadNewPath(PathBuf),
    /// Leave everything as it is.
    Nothing,
}

/// The action for switching to `input` and `output`: named devices when both are named,
/// the default devices as soon as either one is the default.
pub open spec fn spec_selected_devices(input: DeviceSelection, output: DeviceSelection) -> ControllerAction {
    match (input, output) {
        (DeviceSelection::Selected(i), DeviceSelection::Selected(o)) => ControllerAction::LoadNamedDevices(
            i.0,
            o.0,
        ),
        _ => ControllerAction::LoadDefaultDevices,
    }
}

/// The action for `event`: a lost device or an unspecified device error falls back to the
/// default devices, a device switch loads the selected devices, a new path rebuilds the
/// writer, and a stop changes nothing.
pub open spec fn spec_update(event: Event) -> ControllerAction {
    match event {
        Event::AudioDeviceNotAvailable => ControllerAction::LoadDefaultDevices,
        Event::LoadDevices(i, o) => spec_selected_devices(i, o),
        Event::LoadPath(p) => ControllerAction::LoadNewPath(p),
        Event::AudioDeviceUnspecifiedError(_) => ControllerAction::LoadDefaultDevices,
        Event::Stop => ControllerAction::Nothing,
    }
}

/// Whatever error a capture stream reports, the runtime falls back to the default devices.
pub proof fn lemma_stream_errors_fall_back(err: AudioStreamError)
    ensures
        spec_update(spec_audio_error_event(err)) == ControllerAction::LoadDefaultDevices,
{
}

/// Asking for the default device on either side loads the default devices on both.
pub proof fn lemma_default_on_either_side(other: DeviceSelection)
    ensures
        spec_selected_devices(DeviceSelection::Default, other) == ControllerAction::LoadDefaultDevices,
        spec_selected_devices(other, DeviceSelection::Default) == ControllerAction::LoadDefaultDevices,
{
}

/// A device switch keeps each device in its role: with both devices named, the input
/// (microphone) name comes first and the output (speaker) name second, whether the switch
/// is decided on its own or as the runtime's reaction to a switch event.
pub proof fn lemma_device_switch_keeps_roles(input: DeviceName, output: DeviceName)
    ensures
        spec_selected_devices(DeviceSelection::Selected(input), DeviceSelection::Selected(output))
            == ControllerAction::LoadNamedDevices(input.0, output.0),
        spec_update(
            Event::LoadDevices(DeviceSelection::Selected(input), DeviceSelection::Selected(output)),
        ) == ControllerAction::LoadNamedDevices(input.0, output.0),
{
}

/// Decides how to switch to the `input` and `output` device selections.
pub fn load_selected_devices(input: DeviceSelection, output: DeviceSelection) -> (a: ControllerAction)
    ensures
        a == spec_selected_devices(input, output),
        (input, output) matches (DeviceSelection::Selected(i), DeviceSelection::Selected(o)) ==> a
            == ControllerAction::LoadNamedDevices(i.0, o.0),
        (input is Default || output is Default) ==> a is LoadDefaultDevices,
{
    let input = match input {
        DeviceSelection::Default => return ControllerAction::LoadDefaultDevices,
        DeviceSelection::Selected(input) => input,
    };
    let output = match output {
        DeviceSelection::Default => return ControllerAction::LoadDefaultDevices,
        DeviceSelection::Selected(output) => output,
    };
    ControllerAction::LoadNamedDevices(input.0, output.0)
}

/// Decides what the runtime controller does about `event`.
pub fn update(event: Event) -> (a: ControllerAction)
    ensures
        a == spec_update(event),
        event matches Event::LoadDevices(DeviceSelection::Selected(i), DeviceSelection::Selected(o))
            ==> a == ControllerAction::LoadNamedDevices(i.0, o.0),
{
    match event {
        Event::AudioDeviceNotAvailable => ControllerAction::LoadDefaultDevices,
        Event::LoadDevices(input, output) => load_selected_devices(input, output),
        Event::LoadPath(path) => ControllerAction::LoadNewPath(path),
        Event::AudioDeviceUnspecifiedError(_) => ControllerAction::LoadDefaultDevices,
        Event::Stop => ControllerAction::Nothing,
    }
}

/// One turn of the runtime's event loop.
#[derive(Debug, Clone)]
pub enum RunStep {
    /// Leave the loop.
    Exit,
    /// Carry out the action and wait for the next event.
    Apply(ControllerAction),
}

/// The turn of the runtime's loop for `received`, the outcome of waiting for an event
/// (`None` when the event channel is closed): a stop or a closed channel ends the loop,
/// every other event is handled.
pub fn run_step(received: Option<Event>) -> (s: RunStep)
    ensures
        received is None ==> s is Exit,
        received is Some && received->0 is Stop ==> s is Exit,
        received is Some && !(received->0 is Stop) ==> s == RunStep::Apply(spec_update(received->0)),
{
    match received {
        Some(Event::Stop) => RunStep::Exit,
        Some(event) => RunStep::Apply(update(event)),
        None => RunStep::Exit,
    }
}

/// Which devices the head is to be built on.
#[derive(Debug, Clone)]
pub enum DeviceRequest {
    /// The named input (first) and output (second) devices.
    Named(String, String),
    /// The system's default input and output devices.
    Default,
}

/// Builder of the runtime's head. `A`, `E` and `W` are the senders to the user interface,
/// to the runtime's event loop and to the writer.
pub struct ContextHeadBuilder<A, E, W> {
    mic_name: DeviceSelection,
    speaker_name: DeviceSelection,
    app_sender: Option<A>,
    events_sender: Option<E>,
    writer_sender: Option<W>,
}

/// The parts a head is built from, once the builder has all of them.
pub struct ContextHeadParts<A, E, W> {
    pub mic_name: DeviceSelection,
    pub speaker_name: DeviceSelection,
    pub app_sender: A,
    pub events_sender: E,
    pub writer_sender: W,
}

impl<A, E, W> ContextHeadBuilder<A, E, W> {
    /// The requested input device.
    pub closed spec fn mic(&self) -> DeviceSelection {
        self.mic_name
    }

    /// The requested output device.
    pub closed spec fn speaker(&self) -> DeviceSelection {
        self.speaker_name
    }

    /// The sender to the user interface, if set.
    pub closed spec fn app(&self) -> Option<A> {
        self.app_sender
    }

    /// The sender to the runtime's event loop, if set.
    pub closed spec fn events(&self) -> Option<E> {
        self.events_sender
    }

    /// The sender to the writer, if set.
    pub closed spec fn writer(&self) -> Option<W> {
        self.writer_sender
    }

    /// A builder on the default devices with no sender set.
    pub fn default() -> (b: Self)
        ensures
            b.mic() == DeviceSelection::Default,
            b.speaker() == DeviceSelection::Default,
            b.app() is None,
            b.events() is None,
            b.writer() is None,
    {
        ContextHeadBuilder {
            mic_name: DeviceSelection::Default,
            speaker_name: DeviceSelection::Default,
            writer_sender: None,
            events_sender: None,
            app_sender: None,
        }
    }

    /// A builder with every part set, as a running head hands it out to be rebuilt.
    pub fn from_parts(parts: ContextHeadParts<A, E, W>) -> (b: Self)
        ensures
            b.mic() == parts.mic_name,
            b.speaker() == parts.speaker_name,
            b.app() == Some(parts.app_sender),
            b.events() == Some(parts.events_sender),
            b.writer() == Some(parts.writer_sender),
    {
        ContextHeadBuilder {
            mic_name: parts.mic_name,
            speaker_name: parts.speaker_name,
            writer_sender: Some(parts.writer_sender),
            events_sender: Some(parts.events_sender),
            app_sender: Some(parts.app_sender),
        }
    }

    /// Picks the input and output devices by name.
    pub fn set_devices(self, mic_name: &str, speaker_name: &str) -> (b: Self)
        ensures
            b.mic() matches DeviceSelection::Selected(n) && n.0@ == mic_name@,
            b.speaker() matches DeviceSelection::Selected(n) && n.0@ == speaker_name@,
            b.app() == self.app(),
            b.events() == self.events(),
            b.writer() == self.writer(),
    {
        ContextHeadBuilder {
            mic_name: DeviceSelection::Selected(DeviceName(String::from_str(mic_name))),
            speaker_name: DeviceSelection::Selected(DeviceName(String::from_str(speaker_name))),
            ..self
        }
    }

    /// Sets the sender to the writer.
    pub fn set_writer_sender(self, sender: W) -> (b: Self)
        ensures
            b.writer() == Some(sender),
            b.mic() == self.mic(),
            b.speaker() == self.speaker(),
            b.app() == self.app(),
            b.events() == self.events(),
    {
        ContextHeadBuilder { writer_sender: Some(sender), ..self }
    }

    /// Sets the sender to the runtime's event loop.
    pub fn set_events_sender(self, sender: E) -> (b: Self)
        ensures
            b.events() == Some(sender),
            b.mic() == self.mic(),
            b.speaker() == self.speaker(),
            b.app() == self.app(),
            b.writer() == self.writer(),
    {
        ContextHeadBuilder { events_sender: Some(sender), ..self }
    }

    /// Sets the sender to the user interface.
    pub fn set_app_sender(self, sender: A) -> (b: Self)
        ensures
            b.app() == Some(sender),
            b.mic() == self.mic(),
            b.speaker() == self.speaker(),
            b.events() == self.events(),
            b.writer() == self.writer(),
    {
        ContextHeadBuilder { app_sender: Some(sender), ..self }
    }

    /// The devices to build on: the named devices when both are named, else the defaults.
    pub fn try_devices(mic_name: &DeviceSelection, speaker_name: &DeviceSelection) -> (r: DeviceRequest)
        ensures
            (mic_name is Selected && speaker_name is Selected) ==> r == DeviceRequest::Named(
                mic_name->Selected_0.0,
                speaker_name->Selected_0.0,
            ),
            !(mic_name is Selected && speaker_name is Selected) ==> r is Default,
    {
        match (mic_name, speaker_name) {
            (DeviceSelection::Selected(input), DeviceSelection::Selected(output)) => {
                DeviceRequest::Named(input.0.clone(), output.0.clone())
            },
            (_, _) => DeviceRequest::Default,
        }
    }

    /// The devices this builder asks for.
    pub fn requested_devices(&self) -> (r: DeviceRequest)
        ensures
            (self.mic() is Selected && self.speaker() is Selected) ==> r == DeviceRequest::Named(
                self.mic()->Selected_0.0,
                self.speaker()->Selected_0.0,
            ),
            !(self.mic() is Selected && self.speaker() is Selected) ==> r is Default,
    {
        Self::try_devices(&self.mic_name, &self.speaker_name)
    }

    /// Takes out the parts of the head. The senders are checked in this order: the writer's,
    /// the user interface's, the event loop's; the first one missing is the error.
    pub fn try_senders(self) -> (r: Result<ContextHeadParts<A, E, W>, RuntimeBuilderError>)
        ensures
            self.writer() is None ==> r matches Err(RuntimeBuilderError::MissingWriterSender),
            self.writer() is Some && self.app() is None ==> r matches Err(
                RuntimeBuilderError::MissingUiSender,
            ),
            self.writer() is Some && self.app() is Some && self.events() is None ==> r matches Err(
                RuntimeBuilderError::MissingEventsSender,
            ),
            self.writer() is Some && self.app() is Some && self.events() is Some ==> (r matches Ok(p)
                && p.writer_sender == self.writer()->0 && p.app_sender == self.app()->0
                && p.events_sender == self.events()->0 && p.mic_name == self.mic()
                && p.speaker_name == self.speaker()),
    {
        let writer_sender = match self.writer_sender {
            Some(sender) => sender,
            None => return Err(RuntimeBuilderError::MissingWriterSender),
        };
        let app_sender = match self.app_sender {
            Some(sender) => sender,
            None => return Err(RuntimeBuilderError::MissingUiSender),
        };
        let events_sender = match self.events_sender {
            Some(sender) => sender,
            None => return Err(RuntimeBuilderError::MissingEventsSender),
        };
        Ok(ContextHeadParts {
            mic_name: self.mic_name,
            speaker_name: self.speaker_name,
            app_sender,
            events_sender,
            writer_sender,
        })
    }
}

/// Where the building of a head stands. A head is built in this order: find the devices,
/// read the microphone's input configuration, read the loopback's configuration (asked of
/// the microphone device), take the senders out of the builder, check the microphone's
/// sample format and build its stream, check the loopback's sample format and build its
/// stream.
#[derive(Debug)]
pub enum HeadBuild {
    FindDevices,
    ReadMicConfig,
    ReadSpeakerConfig { mic: SampleFormat },
    TakeSenders { mic: SampleFormat, speaker: SampleFormat },
    BuildMicStream { speaker: SampleFormat },
    BuildSpeakerStream,
    Ready,
    Failed(RuntimeBuilderError),
}

/// The outcome of the step a head build stands at.
#[derive(Debug)]
pub enum HeadBuildEvent {
    /// The devices were found, or the error of looking them up.
    Devices(Result<(), RuntimeBuilderError>),
    /// The microphone's sample format, or the backend's message.
    MicConfig(Result<SampleFormat, String>),
    /// The loopback's sample format, or the backend's message.
    SpeakerConfig(Result<SampleFormat, String>),
    /// The senders were taken, or the error of the first one missing.
    Senders(Result<(), RuntimeBuilderError>),
    /// The microphone stream was built, or the backend's message.
    MicStream(Result<(), String>),
    /// The loopback stream was built, or the backend's message.
    SpeakerStream(Result<(), String>),
}

/// Advances the building of a head by the outcome of its current step. A failed step ends
/// the build with its error: a configuration that cannot be read as a device configuration
/// error, a stream that cannot be built as a stream build error, and a sample format other
/// than 32-bit float, checked just before its stream is built, as an unsupported format of
/// the `input` (microphone) or `output` (loopback) side. An outcome that does not belong to
/// the current step changes nothing.
pub fn head_build_step(stage: HeadBuild, event: HeadBuildEvent) -> (r: HeadBuild)
    ensures
        match (stage, event) {
            (HeadBuild::FindDevices, HeadBuildEvent::Devices(Ok(()))) => r is ReadMicConfig,
            (HeadBuild::FindDevices, HeadBuildEvent::Devices(Err(e))) => r == HeadBuild::Failed(e),
            (HeadBuild::ReadMicConfig, HeadBuildEvent::MicConfig(Ok(f))) => r == (
            HeadBuild::ReadSpeakerConfig { mic: f }),
            (HeadBuild::ReadMicConfig, HeadBuildEvent::MicConfig(Err(m))) => r == HeadBuild::Failed(
                RuntimeBuilderError::GetIoDeviceConfigError(m),
            ),
            (
                HeadBuild::ReadSpeakerConfig { mic },
                HeadBuildEvent::SpeakerConfig(Ok(f)),
            ) => r == (HeadBuild::TakeSenders { mic, speaker: f }),
            (HeadBuild::ReadSpeakerConfig { mic }, HeadBuildEvent::SpeakerConfig(Err(m))) => r
                == HeadBuild::Failed(RuntimeBuilderError::GetIoDeviceConfigError(m)),
            (HeadBuild::TakeSenders { mic, speaker }, HeadBuildEvent::Senders(Ok(()))) => if mic
                == SampleFormat::F32 {
                r == (HeadBuild::BuildMicStream { speaker })
            } else {
                r matches HeadBuild::Failed(RuntimeBuilderError::UnsupportedSampleFormat(f, s)) && f
                    == mic && s@ == "input"@
            },
            (HeadBuild::TakeSenders { mic, speaker }, HeadBuildEvent::Senders(Err(e))) => r
                == HeadBuild::Failed(e),
            (HeadBuild::BuildMicStream { speaker }, HeadBuildEvent::MicStream(Ok(()))) => if speaker
                == SampleFormat::F32 {
                r is BuildSpeakerStream
            } else {
                r matches HeadBuild::Failed(RuntimeBuilderError::UnsupportedSampleFormat(f, s)) && f
                    == speaker && s@ == "output"@
            },
            (HeadBuild::BuildMicStream { speaker }, HeadBuildEvent::MicStream(Err(m))) => r
                == HeadBuild::Failed(RuntimeBuilderError::BuildStreamError(m)),
            (HeadBuild::BuildSpeakerStream, HeadBuildEvent::SpeakerStream(Ok(()))) => r is Ready,
            (HeadBuild::BuildSpeakerStream, HeadBuildEvent::SpeakerStream(Err(m))) => r
                == HeadBuild::Failed(RuntimeBuilderError::BuildStreamError(m)),
            (s, _) => r == s,
        },
{
    proof {
        reveal_strlit("input");
        reveal_strlit("output");
    }
    match (stage, event) {
        (HeadBuild::FindDevices, HeadBuildEvent::Devices(Ok(()))) => HeadBuild::ReadMicConfig,
        (HeadBuild::FindDevices, HeadBuildEvent::Devices(Err(e))) => HeadBuild::Failed(e),
        (HeadBuild::ReadMicConfig, HeadBuildEvent::MicConfig(Ok(f))) => HeadBuild::ReadSpeakerConfig {
            mic: f,
        },
        (HeadBuild::ReadMicConfig, HeadBuildEvent::MicConfig(Err(m))) => HeadBuild::Failed(
            RuntimeBuilderError::GetIoDeviceConfigError(m),
        ),
        (HeadBuild::ReadSpeakerConfig { mic }, HeadBuildEvent::SpeakerConfig(Ok(f))) => {
            HeadBuild::TakeSenders { mic, speaker: f }
        },
        (HeadBuild::ReadSpeakerConfig { mic }, HeadBuildEvent::SpeakerConfig(Err(m))) => {
            HeadBuild::Failed(RuntimeBuilderError::GetIoDeviceConfigError(m))
        },
        (HeadBuild::TakeSenders { mic, speaker }, HeadBuildEvent::Senders(Ok(()))) => {
            match check_stream_format(mic, DeviceRole::Input) {
                Ok(()) => HeadBuild::BuildMicStream { speaker },
                Err(e) => HeadBuild::Failed(e),
            }
        },
        (HeadBuild::TakeSenders { mic, speaker }, HeadBuildEvent::Senders(Err(e))) => {
            HeadBuild::Failed(e)
        },
        (HeadBuild::BuildMicStream { speaker }, HeadBuildEvent::MicStream(Ok(()))) => {
            match check_stream_format(speaker, DeviceRole::Output) {
                Ok(()) => HeadBuild::BuildSpeakerStream,
                Err(e) => HeadBuild::Failed(e),
            }
        },
        (HeadBuild::BuildMicStream { speaker }, HeadBuildEvent::MicStream(Err(m))) => {
            HeadBuild::Failed(RuntimeBuilderError::BuildStreamError(m))
        },
        (HeadBuild::BuildSpeakerStream, HeadBuildEvent::SpeakerStream(Ok(()))) => HeadBuild::Ready,
        (HeadBuild::BuildSpeakerStream, HeadBuildEvent::SpeakerStream(Err(m))) => {
            HeadBuild::Failed(RuntimeBuilderError::BuildStreamError(m))
        },
        (s, _) => s,
    }
}

/// The runtime's tail: the writer stream, and the spec it writes with.
pub struct ContextTail<W> {
    pub writer_thread: W,
    write_spec: Mp3Spec,
}

/// What a tail is made from: where it writes, with which spec, and the receiving end of
/// the channel it is fed on.
pub struct ContextTailBuilderArgs<R> {
    pub write_path: PathBuf,
    pub write_spec: Mp3Spec,
    pub write_recv: R,
}

impl<W> ContextTail<W> {
    /// The spec this tail writes with.
    pub closed spec fn spec(&self) -> Mp3Spec {
        self.write_spec
    }

    /// This tail's writer.
    pub closed spec fn writer(&self) -> W {
        self.writer_thread
    }

    /// Starts the writer on `args` with `spawn`, which is handed the path, the spec and the
    /// receiver, and returns the writer's remote end.
    pub fn new<R, F: FnOnce(PathBuf, Mp3Spec, R) -> W>(args: ContextTailBuilderArgs<R>, spawn: F) -> (t:
        Self)
        requires
            spawn.requires((args.write_path, args.write_spec, args.write_recv)),
        ensures
            t.spec() == args.write_spec,
            spawn.ensures((args.write_path, args.write_spec, args.write_recv), t.writer()),
    {
        let spec = args.write_spec;
        let writer = spawn(args.write_path, args.write_spec, args.write_recv);
        ContextTail { writer_thread: writer, write_spec: spec }
    }

    /// The spec this tail writes with.
    pub fn get_writer_spec(&self) -> (s: Mp3Spec)
        ensures
            s == self.spec(),
    {
        self.write_spec
    }

    /// A new sender to this tail's writer, made from the writer by `get_sender`.
    pub fn get_writer_sender<S, F: Fn(&W) -> S>(&self, get_sender: F) -> (s: S)
        requires
            get_sender.requires((&self.writer(),)),
        ensures
            get_sender.ensures((&self.writer(),), s),
    {
        get_sender(&self.writer_thread)
    }
}

/// Builder of the runtime's tail.
pub struct ContextTailBuilder {
    write_path: PathBuf,
    write_spec: Option<Mp3Spec>,
}

impl ContextTailBuilder {
    /// The path the tail is to write to.
    pub closed spec fn path(&self) -> PathBuf {
        self.write_path
    }

    /// The spec the tail is to write with, if set.
    pub closed spec fn spec(&self) -> Option<Mp3Spec> {
        self.write_spec
    }

    /// A builder writing to `default_path`, with no spec.
    pub fn new(default_path: PathBuf) -> (b: Self)
        ensures
            b.path() == default_path,
            b.spec() is None,
    {
        ContextTailBuilder { write_path: default_path, write_spec: None }
    }

    /// Sets the path the tail writes to.
    pub fn set_write_path(self, write_path: PathBuf) -> (b: Self)
        ensures
            b.path() == write_path,
            b.spec() == self.spec(),
    {
        ContextTailBuilder { write_path, ..self }
    }

    /// Sets the spec the tail writes with.
    pub fn set_write_spec(self, write_spec: Mp3Spec) -> (b: Self)
        ensures
            b.spec() == Some(write_spec),
            b.path() == self.path(),
    {
        ContextTailBuilder { write_spec: Some(write_spec), ..self }
    }

    /// Builds the tail: without a spec it is refused as an invalid writer configuration;
    /// with one, `spawn` starts the writer on the spec and the path.
    pub fn try_build<W, F: FnOnce(Mp3Spec, PathBuf) -> W>(self, spawn: F) -> (r: Result<
        ContextTail<W>,
        RuntimeBuilderError,
    >)
        requires
            self.spec() matches Some(s) ==> spawn.requires((s, self.path())),
        ensures
            self.spec() is None ==> (r matches Err(RuntimeBuilderError::InvalidWriterConfig(m))
                && m@ == "missing config in builder"@),
            self.spec() matches Some(s) ==> (r matches Ok(t) && t.spec() == s && spawn.ensures(
                (s, self.path()),
                t.writer(),
            )),
    {
        proof {
            reveal_strlit("missing config in builder");
        }
        let spec = match self.write_spec {
            Some(spec) => spec,
            None => return Err(
                RuntimeBuilderError::InvalidWriterConfig(
                    String::from_str("missing config in builder"),
                ),
            ),
        };
        let writer = spawn(spec, self.write_path);
        Ok(ContextTail { writer_thread: writer, write_spec: spec })
    }
}

} // verus!
