//! What the user interface shows and how the recorder's session state moves: the level
//! updates forwarded to the interface, the record button, and the recording state.
use vstd::prelude::*;
use vstd::string::StringExecFns;
use crate::errors::RecorderError;
use std::path::PathBuf;

verus! {

/// An update sent from the audio side to the interface's notifier.
#[derive(Debug, Clone)]
pub enum UiUpdate<T> {
    /// The level of the latest mixed frame.
    Pulse(T),
    /// A capture stream reported an error.
    AudioIoError,
    Stop,
}

/// A message the notifier hands to the interface.
#[derive(Debug, Clone)]
pub enum UiMessage<T> {
    /// The latest level, in decibels.
    Decibel(T),
    AudioIoError,
}

/// What the notifier does with one received update.
#[derive(Debug, Clone)]
pub enum ProgressStep<T> {
    /// Hand the message to the interface and wait for the next update.
    Emit(UiMessage<T>),
    /// Nothing to hand on; wait for the next update.
    Skip,
    /// Stop notifying.
    Finish,
}

/// Decides what the notifier does with `received`, the outcome of waiting for an update
/// (`None` when the channel failed, which is skipped): a pulse is converted to decibels by
/// `to_db` and handed on, an audio error is handed on, a stop ends the notifier.
pub fn progress_step<T, F: Fn(T) -> T>(received: Option<UiUpdate<T>>, to_db: F) -> (s: ProgressStep<T>)
    requires
        forall|x: T| to_db.requires((x,)),
    ensures
        received is None ==> s is Skip,
        received matches Some(UiUpdate::Pulse(x)) ==> (s matches ProgressStep::Emit(
            UiMessage::Decibel(d),
        ) && to_db.ensures((x,), d)),
        received matches Some(UiUpdate::AudioIoError) ==> s matches ProgressStep::Emit(
            UiMessage::AudioIoError,
        ),
        received matches Some(UiUpdate::Stop) ==> s is Finish,
{
    match received {
        Some(UiUpdate::Pulse(x)) => {
            let amp_in_db = to_db(x);
            ProgressStep::Emit(UiMessage::Decibel(amp_in_db))
        },
        Some(UiUpdate::Stop) => ProgressStep::Finish,
        Some(UiUpdate::AudioIoError) => ProgressStep::Emit(UiMessage::AudioIoError),
        None => ProgressStep::Skip,
    }
}

/// The title of the recorder's window.
pub fn title() -> (s: String)
    ensures
        s@ == "A naive two stream rusty recorder"@,
{
    proof {
        reveal_strlit("A naive two stream rusty recorder");
    }
    String::from_str("A naive two stream rusty recorder")
}

/// Whether the recorder is recording.
#[derive(Debug, Clone, Copy, PartialEq, Eq, Structural)]
pub enum RecordState {
    Start,
    Stop,
}

/// The messages of the recorder's interface.
#[derive(Debug, Clone)]
pub enum RecorderMessage<T> {
    Start,
    Stop,
    SettingsSelectInputDevice(String),
    SettingsSelectOutputDevice(String),
    SettingsSyncIoDevices,
    SettingsSelectFilePath,
    PulseUpdate(T),
    Error(RecorderError),
}

/// The record button for `state`: while recording it reads `Stop [Rec]` and stops, else it
/// reads `Start [Rec]` and starts.
pub fn gen_record_button<T>(state: RecordState) -> (b: (String, RecorderMessage<T>))
    ensures
        state is Start ==> b.0@ == "Stop [Rec]"@ && b.1 is Stop,
        state is Stop ==> b.0@ == "Start [Rec]"@ && b.1 is Start,
{
    proof {
        reveal_strlit("Stop [Rec]");
        reveal_strlit("Start [Rec]");
    }
    match state {
        RecordState::Start => (String::from_str("Stop [Rec]"), RecorderMessage::Stop),
        RecordState::Stop => (String::from_str("Start [Rec]"), RecorderMessage::Start),
    }
}

/// What the interface is to do after the session took in a message.
#[derive(Debug, Clone)]
pub enum RecorderAction {
    /// Start recording, and hand the outcome to `RecorderSession::record_started`.
    StartRecording,
    /// Stop recording, and then call `RecorderSession::record_stopped`.
    StopRecording,
    /// Capture from the input device of this name, if there is one, and rebuild its stream.
    SelectInputDevice(String),
    /// Capture from the output device of this name, if there is one, and rebuild its stream.
    SelectOutputDevice(String),
    /// Go back to the default devices and rebuild both streams.
    SyncIoDevices,
    /// Ask the user for a path, and hand the pick to `RecorderSession::select_file_path`.
    PickFilePath,
    /// Report the error.
    ShowError(RecorderError),
    /// Nothing more to do.
    Nothing,
}

/// The interface-side state of a recording session.
pub struct RecorderSession<T> {
    state: RecordState,
    /// The path the user picked for the next recording; `None` while it is the default.
    picked_path: Option<PathBuf>,
    default_path: PathBuf,
    volume: T,
    speaker_list_count: usize,
    mic_list_count: usize,
}

impl<T> RecorderSession<T> {
    pub closed spec fn state(&self) -> RecordState {
        self.state
    }

    /// The path the next recording is written to.
    pub closed spec fn path(&self) -> PathBuf {
        match self.picked_path {
            Some(p) => p,
            None => self.default_path,
        }
    }

    /// The path a session falls back to after each recording.
    pub closed spec fn default_path(&self) -> PathBuf {
        self.default_path
    }

    /// The latest level shown.
    pub closed spec fn volume(&self) -> T {
        self.volume
    }

    /// The number of input (first) and output (second) devices seen when the devices were
    /// last counted.
    pub closed spec fn counts(&self) -> (usize, usize) {
        (self.speaker_list_count, self.mic_list_count)
    }

    /// A stopped session recording to `default_path`, showing level `volume`, that has seen
    /// `input_count` input and `output_count` output devices.
    pub fn new(default_path: PathBuf, volume: T, input_count: usize, output_count: usize) -> (s: Self)
        ensures
            s.state() == RecordState::Stop,
            s.path() == default_path,
            s.default_path() == default_path,
            s.volume() == volume,
            s.counts() == (input_count, output_count),
    {
        RecorderSession {
            state: RecordState::Stop,
            picked_path: None,
            default_path,
            volume,
            speaker_list_count: input_count,
            mic_list_count: output_count,
        }
    }

    /// The current recording state.
    pub fn get_state(&self) -> (s: RecordState)
        ensures
            s == self.state(),
    {
        self.state
    }

    /// The path the next recording is written to.
    pub fn recording_path(&self) -> (p: &PathBuf)
        ensures
            *p == self.path(),
    {
        match &self.picked_path {
            Some(p) => p,
            None => &self.default_path,
        }
    }

    /// The latest level shown.
    pub fn get_volume(&self) -> (v: &T)
        ensures
            *v == self.volume(),
    {
        &self.volume
    }

    /// Takes in the outcome of starting a recording: on success the session is recording;
    /// on failure it stays as it was and the error is handed back to be shown.
    pub fn record_started<X>(&mut self, outcome: Result<X, RecorderError>) -> (r: Result<X, RecorderError>)
        ensures
            r == outcome,
            outcome is Ok ==> final(self).state() == RecordState::Start,
            outcome is Err ==> final(self).state() == old(self).state(),
            final(self).path() == old(self).path(),
            final(self).default_path() == old(self).default_path(),
            final(self).volume() == old(self).volume(),
            final(self).counts() == old(self).counts(),
    {
        if outcome.is_ok() {
            self.state = RecordState::Start;
        }
        outcome
    }

    /// Stops recording: the session is stopped, and the next recording goes to the default
    /// path again.
    pub fn record_stopped(&mut self)
        ensures
            final(self).state() == RecordState::Stop,
            final(self).path() == old(self).default_path(),
            final(self).default_path() == old(self).default_path(),
            final(self).volume() == old(self).volume(),
            final(self).counts() == old(self).counts(),
    {
        self.state = RecordState::Stop;
        self.picked_path = None;
    }

    /// Takes in the path the user picked, if any: a pick replaces the recording path,
    /// a cancelled pick leaves it.
    pub fn select_file_path(&mut self, picked: Option<PathBuf>)
        ensures
            picked matches Some(p) ==> final(self).path() == p,
            picked is None ==> final(self).path() == old(self).path(),
            final(self).state() == old(self).state(),
            final(self).default_path() == old(self).default_path(),
            final(self).volume() == old(self).volume(),
            final(self).counts() == old(self).counts(),
    {
        if let Some(path) = picked {
            self.picked_path = Some(path);
        }
    }

    /// Shows a new level.
    pub fn pulse_update(&mut self, x: T)
        ensures
            final(self).volume() == x,
            final(self).state() == old(self).state(),
            final(self).path() == old(self).path(),
            final(self).default_path() == old(self).default_path(),
            final(self).counts() == old(self).counts(),
    {
        self.volume = x;
    }

    /// Takes in a message of the interface. A stop marks the session stopped at once and a
    /// level is shown; every message says what the interface is to do next: start or stop
    /// recording, switch devices, pick a path or report an error.
    pub fn update(&mut self, message: RecorderMessage<T>) -> (a: RecorderAction)
        ensures
            message is Start ==> a is StartRecording && *final(self) == *old(self),
            message is Stop ==> a is StopRecording && final(self).state() == RecordState::Stop
                && final(self).path() == old(self).path() && final(self).default_path() == old(
                self,
            ).default_path() && final(self).volume() == old(self).volume() && final(self).counts()
                == old(self).counts(),
            message matches RecorderMessage::SettingsSelectInputDevice(d) ==> (a matches RecorderAction::SelectInputDevice(n)
                && n == d && *final(self) == *old(self)),
            message matches RecorderMessage::SettingsSelectOutputDevice(d) ==> (a matches RecorderAction::SelectOutputDevice(n)
                && n == d && *final(self) == *old(self)),
            message is SettingsSyncIoDevices ==> a is SyncIoDevices && *final(self) == *old(self),
            message is SettingsSelectFilePath ==> a is PickFilePath && *final(self) == *old(self),
            message matches RecorderMessage::PulseUpdate(x) ==> (a is Nothing && final(self).volume() == x
                && final(self).state() == old(self).state() && final(self).path() == old(self).path()
                && final(self).default_path() == old(self).default_path() && final(self).counts()
                == old(self).counts()),
            message matches RecorderMessage::Error(e) ==> (a matches RecorderAction::ShowError(f) && f
                == e && *final(self) == *old(self)),
    {
        match message {
            RecorderMessage::Start => RecorderAction::StartRecording,
            RecorderMessage::Stop => {
                self.state = RecordState::Stop;
                RecorderAction::StopRecording
            },
            RecorderMessage::SettingsSelectInputDevice(device) => RecorderAction::SelectInputDevice(device),
            RecorderMessage::SettingsSelectOutputDevice(device) => RecorderAction::SelectOutputDevice(device),
            RecorderMessage::SettingsSyncIoDevices => RecorderAction::SyncIoDevices,
            RecorderMessage::SettingsSelectFilePath => RecorderAction::PickFilePath,
            RecorderMessage::PulseUpdate(x) => {
                self.volume = x;
                RecorderAction::Nothing
            },
            RecorderMessage::Error(e) => RecorderAction::ShowError(e),
        }
    }

    /// Whether the devices are to be reloaded: so when the number of input or of output
    /// devices differs from the last count.
    pub fn to_reload_devices(&self, input_count: usize, output_count: usize) -> (b: bool)
        ensures
            b == (input_count != self.counts().0 || output_count != self.counts().1),
    {
        input_count != self.speaker_list_count || output_count != self.mic_list_count
    }
}

} // verus!
