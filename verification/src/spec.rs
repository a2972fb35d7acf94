//! Output specifications: the MP3 spec that two merged streams are written with, the WAV
//! header spec of a single stream, and when buffered audio is due for a checkpoint.
use vstd::prelude::*;
use crate::errors::RecorderError;
use crate::format::{SampleFormat, SupportedConfig, spec_sample_size, spec_is_float};

verus! {

/// Output parameters of an MP3 recording.
#[derive(Debug, Clone, Copy, PartialEq, Eq, Structural)]
pub struct Mp3Spec {
    pub channels: u8,
    pub sample_rate: usize,
    pub bits_per_sample: u16,
}

/// The spec that two streams of configurations `a` and `b` are merged into, when they can be.
pub open spec fn merged_spec(a: SupportedConfig, b: SupportedConfig) -> Result<Mp3Spec, RecorderError> {
    if a.sample_rate != b.sample_rate {
        Err(RecorderError::UnsupportedSampleRate(a.sample_rate, b.sample_rate))
    } else if spec_sample_size(a.sample_format) != spec_sample_size(b.sample_format) {
        Err(
            RecorderError::UnsupportedSampleSize(
                spec_sample_size(a.sample_format),
                spec_sample_size(b.sample_format),
            ),
        )
    } else {
        Ok(
            Mp3Spec {
                channels: 2,
                sample_rate: a.sample_rate as usize,
                bits_per_sample: (spec_sample_size(a.sample_format) * 8) as u16,
            },
        )
    }
}

/// Two streams can be merged exactly when they agree on both the sample rate and the
/// sample size, whichever of them comes first; a merged spec is stereo, at the shared rate,
/// with the shared sample width; with equal rates and differing sizes the merge is refused
/// with both sizes, in the order of the streams.
pub proof fn lemma_merge_needs_matching_streams(a: SupportedConfig, b: SupportedConfig)
    ensures
        merged_spec(a, b) is Ok <==> (a.sample_rate == b.sample_rate && spec_sample_size(
            a.sample_format,
        ) == spec_sample_size(b.sample_format)),
        merged_spec(a, b) is Ok <==> merged_spec(b, a) is Ok,
        merged_spec(a, b) matches Ok(s) ==> (s.channels == 2 && s.sample_rate == a.sample_rate
            && s.bits_per_sample == 8 * spec_sample_size(a.sample_format)),
        a.sample_rate == b.sample_rate && spec_sample_size(a.sample_format) != spec_sample_size(
            b.sample_format,
        ) ==> merged_spec(a, b) == Err::<Mp3Spec, RecorderError>(
            RecorderError::UnsupportedSampleSize(
                spec_sample_size(a.sample_format),
                spec_sample_size(b.sample_format),
            ),
        ),
{
}

/// Derives the stereo MP3 spec that the streams of configurations `config_a` and `config_b`
/// are merged into. Streams of differing sample rate or sample size cannot be merged.
pub fn wav_spec_from_configs(config_a: &SupportedConfig, config_b: &SupportedConfig) -> (r: Result<
    Mp3Spec,
    RecorderError,
>)
    ensures
        r == merged_spec(*config_a, *config_b),
        r is Ok ==> config_a.sample_rate == config_b.sample_rate && spec_sample_size(
            config_a.sample_format,
        ) == spec_sample_size(config_b.sample_format),
{
    let sample_rate_a = config_a.sample_rate;
    let sample_rate_b = config_b.sample_rate;
    if sample_rate_a != sample_rate_b {
        return Err(RecorderError::UnsupportedSampleRate(sample_rate_a, sample_rate_b));
    }
    let sample_size_a = config_a.sample_format.sample_size();
    let sample_size_b = config_b.sample_format.sample_size();
    if sample_size_a != sample_size_b {
        return Err(RecorderError::UnsupportedSampleSize(sample_size_a, sample_size_b));
    }
    Ok(Mp3Spec {
        channels: 2,
        sample_rate: sample_rate_a as usize,
        bits_per_sample: (sample_size_a * 8) as u16,
    })
}

/// Whether `spec` has the sample rate and the sample width of `config`.
pub fn assert_wav_spec_from_configs(config: &SupportedConfig, spec: Mp3Spec) -> (b: bool)
    ensures
        b == (spec.sample_rate == config.sample_rate as usize && spec.bits_per_sample as int
            == spec_sample_size(config.sample_format) * 8),
{
    let sample_rate = config.sample_rate;
    let sample_size = config.sample_format.sample_size();
    spec.sample_rate == sample_rate as usize && spec.bits_per_sample as usize == sample_size * 8
}

/// Number of interleaved samples that two minutes of audio of `spec` hold.
pub open spec fn two_minutes_of_samples(spec: Mp3Spec) -> int {
    spec.sample_rate * 60 * spec.channels * 2
}

/// Whether the quantities `should_checkpoint` computes with fit in a `usize`.
pub open spec fn checkpoint_size_fits(spec: Mp3Spec) -> bool {
    &&& spec.sample_rate * 60 <= usize::MAX
    &&& two_minutes_of_samples(spec) <= usize::MAX
}

/// Whether the checkpoint size of `spec` can be computed, which `should_checkpoint` needs.
pub fn checkpoint_size_computable(spec: Mp3Spec) -> (b: bool)
    ensures
        b == checkpoint_size_fits(spec),
{
    let rate = spec.sample_rate as u128;
    let per_min = rate * 60;
    if per_min > usize::MAX as u128 {
        return false;
    }
    let channels = spec.channels as u128;
    assert(per_min * channels <= 0xffff_ffff_ffff_ffff * 255) by (nonlinear_arith)
        requires
            per_min <= 0xffff_ffff_ffff_ffff,
            channels <= 255,
    ;
    let total = per_min * channels * 2;
    total <= usize::MAX as u128
}

/// A buffer of `buff_size` interleaved samples is checkpointed once it holds at least two
/// minutes of audio.
pub fn should_checkpoint(spec: Mp3Spec, buff_size: usize) -> (b: bool)
    requires
        checkpoint_size_fits(spec),
    ensures
        b == (two_minutes_of_samples(spec) <= buff_size),
{
    assert(spec.sample_rate * 60 * spec.channels >= 0) by (nonlinear_arith)
        requires
            spec.sample_rate >= 0,
            spec.channels >= 0,
    ;
    let samples_per_min: usize = spec.sample_rate * 60;
    let samples_per_min_interleaved: usize = samples_per_min * spec.channels as usize;
    samples_per_min_interleaved * 2 <= buff_size
}

/// Whether a WAV file stores integer or floating-point samples.
#[derive(Debug, Clone, Copy, PartialEq, Eq, Structural)]
pub enum WavSampleFormat {
    Float,
    Int,
}

/// The header description of a WAV file.
#[derive(Debug, Clone, Copy, PartialEq, Eq, Structural)]
pub struct WavSpec {
    pub channels: u16,
    pub sample_rate: u32,
    pub bits_per_sample: u16,
    pub sample_format: WavSampleFormat,
}

/// Errors met while deriving a WAV spec.
#[derive(Debug, Clone, PartialEq, Eq, Structural)]
pub enum WavSpecError {
    /// The two streams have different sample rates.
    SampleRateMismatch(u32, u32),
}

/// The WAV sample format that stores samples of format `f`.
pub open spec fn spec_wav_sample_format(f: SampleFormat) -> WavSampleFormat {
    if spec_is_float(f) {
        WavSampleFormat::Float
    } else {
        WavSampleFormat::Int
    }
}

/// A WAV header declares floating-point samples exactly for the two floating-point formats;
/// every integer format, signed or unsigned and of any width, is declared as integers.
pub proof fn lemma_wav_float_only_for_floats(f: SampleFormat)
    ensures
        spec_wav_sample_format(f) is Float <==> (f is F32 || f is F64),
        spec_wav_sample_format(f) is Int <==> !(f is F32 || f is F64),
{
}

/// The WAV sample format for samples of `format`: floating point stays floating point,
/// every other format is stored as integers.
pub fn sample_format(format: SampleFormat) -> (r: WavSampleFormat)
    ensures
        r == spec_wav_sample_format(format),
        r is Float <==> (format is F32 || format is F64),
{
    if format.is_float() {
        WavSampleFormat::Float
    } else {
        WavSampleFormat::Int
    }
}

/// The WAV spec that records a single stream of `config` as it is.
pub fn wav_spec_from_config(config: &SupportedConfig) -> (r: WavSpec)
    ensures
        r == (WavSpec {
            channels: config.channels,
            sample_rate: config.sample_rate,
            bits_per_sample: (spec_sample_size(config.sample_format) * 8) as u16,
            sample_format: spec_wav_sample_format(config.sample_format),
        }),
{
    WavSpec {
        channels: config.channels,
        sample_rate: config.sample_rate,
        bits_per_sample: (config.sample_format.sample_size() * 8) as u16,
        sample_format: sample_format(config.sample_format),
    }
}

/// The smaller of two sample sizes.
pub open spec fn min_size(a: usize, b: usize) -> usize {
    if a <= b {
        a
    } else {
        b
    }
}

/// The WAV spec that two streams are recorded into as one stereo file: it takes the sample
/// rate they share, the sample format of `config_a`, and a sample width derived from the
/// smaller of their sample sizes (that size in bits, counted once more in bits).
pub fn wav_spec_from_two_configs(config_a: &SupportedConfig, config_b: &SupportedConfig) -> (r:
    Result<WavSpec, WavSpecError>)
    ensures
        config_a.sample_rate != config_b.sample_rate ==> r == Err::<WavSpec, WavSpecError>(
            WavSpecError::SampleRateMismatch(config_a.sample_rate, config_b.sample_rate),
        ),
        config_a.sample_rate == config_b.sample_rate ==> r == Ok::<WavSpec, WavSpecError>(
            WavSpec {
                channels: 2,
                sample_rate: config_a.sample_rate,
                bits_per_sample: (min_size(
                    spec_sample_size(config_a.sample_format),
                    spec_sample_size(config_b.sample_format),
                ) * 64) as u16,
                sample_format: spec_wav_sample_format(config_a.sample_format),
            },
        ),
{
    let sample_rate_a = config_a.sample_rate;
    let sample_rate_b = config_b.sample_rate;
    if sample_rate_a != sample_rate_b {
        return Err(WavSpecError::SampleRateMismatch(sample_rate_a, sample_rate_b));
    }
    let sample_size_a = config_a.sample_format.sample_size();
    let sample_size_b = config_b.sample_format.sample_size();
    let smaller = if sample_size_a <= sample_size_b {
        sample_size_a
    } else {
        sample_size_b
    };
    let sample_size = smaller * 8;
    Ok(WavSpec {
        channels: 2,
        sample_rate: sample_rate_a,
        bits_per_sample: (sample_size * 8) as u16,
        sample_format: sample_format(config_a.sample_format),
    })
}

} // verus!
