//! Error types of the recorder, its streams, its storage and its runtime.
use vstd::prelude::*;
use crate::format::SampleFormat;

verus! {

/// Errors that the recording application reports to its user.
#[derive(Debug, Clone)]
pub enum RecorderError {
    StreamConfigError(String),
    UnsupportedSampleRate(u32, u32),
    UnsupportedSampleSize(usize, usize),
    FileCreationError(String),
    UnsupportedSampleFormat(SampleFormat, String),
    WavWriterNotFoundError,
    BuildStreamError(String),
    PlayStreamError(String),
    StreamFrameSendError,
    /// A frame channel was disconnected; the string names the channel.
    StreamFrameRecvError(String),
    StreamStopError(String),
    StorageStreamWriteError(String),
    StateJoinHandleNotFound,
    ThreadControlThreadFailedToSpawn(String),
    ThreadControlThreadFailedToJoin,
    FileWriterWriterError(String),
    FileWriterCreateError(String),
    FileWriterFinalizeError(String),
}

/// Errors of the MP3 writer.
#[derive(Debug, Clone)]
pub enum Mp3WriterError {
    WriteError(String),
    CreateError(String),
    EncoderBuildError(String),
    EncoderEncodeError(String),
    WriteToFileError(String),
}

/// Errors that a stream thread reports through its error callback.
#[derive(Debug, Clone)]
pub enum StreamError {
    ChildThreadFailedToSpawn(String),
    SendError,
    RecvError,
}

/// Errors of the recorder's runtime.
#[derive(Debug, Clone)]
pub enum RuntimeError {
    GetIoDeviceError(String),
    ContextHeadBuildError(String),
    ContextBuildError(String),
    PlayStreamError(String),
}

/// Errors met while assembling the runtime's contexts.
#[derive(Debug, Clone)]
pub enum RuntimeBuilderError {
    /// The first string says what went wrong, the second which device was asked for.
    GetIoDeviceError(String, String),
    GetIoDeviceConfigError(String),
    BuildStreamError(String),
    UnsupportedSampleFormat(SampleFormat, String),
    PlayStreamError(String),
    MissingWriterSender,
    MissingUiSender,
    MissingEventsSender,
    InvalidWriterConfig(String),
}

} // verus!
