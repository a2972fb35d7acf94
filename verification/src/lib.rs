//! Verified core of a two-stream audio recorder: it pairs the frames of a microphone and
//! a loopback (speaker) stream, mixes them, buffers the result and cuts it into numbered
//! MP3 checkpoints, and it decides how the recorder's runtime reacts to device events.
pub mod format;
pub mod errors;
pub mod spec;
pub mod mixer;
pub mod bridge;
pub mod naming;
pub mod checkpoint;
pub mod stream;
pub mod settings;
pub mod runtime;
pub mod ui;
pub mod devices;
pub mod mp3;
pub mod stereo;
