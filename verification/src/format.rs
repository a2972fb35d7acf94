//! Sample encodings of audio streams and the WAV header description derived from them.
use vstd::prelude::*;

verus! {

/// The encoding of one sample as an audio backend reports it for a stream.
#[derive(Debug, Clone, Copy, PartialEq, Eq, Structural)]
pub enum SampleFormat {
    I8,
    I16,
    I32,
    I64,
    U8,
    U16,
    U32,
    U64,
    F32,
    F64,
}

/// Number of bytes that one sample of format `f` occupies.
pub open spec fn spec_sample_size(f: SampleFormat) -> usize {
    match f {
        SampleFormat::I8 | SampleFormat::U8 => 1,
        SampleFormat::I16 | SampleFormat::U16 => 2,
        SampleFormat::I32 | SampleFormat::U32 | SampleFormat::F32 => 4,
        SampleFormat::I64 | SampleFormat::U64 | SampleFormat::F64 => 8,
    }
}

/// Whether samples of format `f` are floating-point numbers.
pub open spec fn spec_is_float(f: SampleFormat) -> bool {
    f is F32 || f is F64
}

impl SampleFormat {
    /// The size in bytes of one sample of this format.
    pub fn sample_size(&self) -> (n: usize)
        ensures
            n == spec_sample_size(*self),
            1 <= n <= 8,
            (*self is I8 || *self is U8) ==> n == 1,
            (*self is I16 || *self is U16) ==> n == 2,
            (*self is I32 || *self is U32 || *self is F32) ==> n == 4,
            (*self is I64 || *self is U64 || *self is F64) ==> n == 8,
    {
        match *self {
            SampleFormat::I8 | SampleFormat::U8 => 1,
            SampleFormat::I16 | SampleFormat::U16 => 2,
            SampleFormat::I32 | SampleFormat::U32 | SampleFormat::F32 => 4,
            SampleFormat::I64 | SampleFormat::U64 | SampleFormat::F64 => 8,
        }
    }

    /// Whether this format holds floating-point samples.
    pub fn is_float(&self) -> (b: bool)
        ensures
            b == spec_is_float(*self),
            b <==> (*self is F32 || *self is F64),
    {
        match *self {
            SampleFormat::F32 | SampleFormat::F64 => true,
            _ => false,
        }
    }
}

/// The size of a stream's audio buffer, as requested from the backend.
#[derive(Debug, Clone, Copy, PartialEq, Eq, Structural)]
pub enum BufferSize {
    Default,
    Fixed(u32),
}

/// The configuration an audio stream is opened with.
#[derive(Debug, Clone, Copy, PartialEq, Eq, Structural)]
pub struct StreamConfig {
    pub channels: u16,
    pub sample_rate: u32,
    pub buffer_size: BufferSize,
}

/// The configuration a device offers by default: channel count, sample rate and sample format.
#[derive(Debug, Clone, Copy, PartialEq, Eq, Structural)]
pub struct SupportedConfig {
    pub channels: u16,
    pub sample_rate: u32,
    pub sample_format: SampleFormat,
}

impl SupportedConfig {
    /// The stream configuration a stream is built with from this supported configuration.
    pub fn config(&self) -> (c: StreamConfig)
        ensures
            c == (StreamConfig {
                channels: self.channels,
                sample_rate: self.sample_rate,
                buffer_size: BufferSize::Default,
            }),
    {
        StreamConfig {
            channels: self.channels,
            sample_rate: self.sample_rate,
            buffer_size: BufferSize::Default,
        }
    }
}

} // verus!
