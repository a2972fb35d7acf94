use iced_recorder::errors::RecorderError;
use iced_recorder::format::{BufferSize, SampleFormat, StreamConfig, SupportedConfig};
use iced_recorder::spec::{
    assert_wav_spec_from_configs, sample_format, should_checkpoint, wav_spec_from_config,
    wav_spec_from_configs, wav_spec_from_two_configs, Mp3Spec, WavSampleFormat, WavSpec,
    WavSpecError,
};

fn config(channels: u16, rate: u32, format: SampleFormat) -> SupportedConfig {
    SupportedConfig { channels, sample_rate: rate, sample_format: format }
}

#[test]
fn sample_sizes_follow_the_format() {
    assert_eq!(SampleFormat::I8.sample_size(), 1);
    assert_eq!(SampleFormat::U8.sample_size(), 1);
    assert_eq!(SampleFormat::I16.sample_size(), 2);
    assert_eq!(SampleFormat::U16.sample_size(), 2);
    assert_eq!(SampleFormat::I32.sample_size(), 4);
    assert_eq!(SampleFormat::U32.sample_size(), 4);
    assert_eq!(SampleFormat::F32.sample_size(), 4);
    assert_eq!(SampleFormat::I64.sample_size(), 8);
    assert_eq!(SampleFormat::U64.sample_size(), 8);
    assert_eq!(SampleFormat::F64.sample_size(), 8);
    assert!(SampleFormat::F32.is_float());
    assert!(SampleFormat::F64.is_float());
    assert!(!SampleFormat::I16.is_float());
}

#[test]
fn stream_config_of_a_supported_config() {
    let c = config(2, 48000, SampleFormat::F32).config();
    assert_eq!(c, StreamConfig { channels: 2, sample_rate: 48000, buffer_size: BufferSize::Default });
}

#[test]
fn merged_spec_of_matching_configs() {
    let spec = wav_spec_from_configs(&config(2, 48000, SampleFormat::F32), &config(4, 48000, SampleFormat::I32)).unwrap();
    assert_eq!(spec, Mp3Spec { channels: 2, sample_rate: 48000, bits_per_sample: 32 });
}

#[test]
fn merged_spec_refuses_differing_rates() {
    match wav_spec_from_configs(&config(2, 48000, SampleFormat::F32), &config(2, 44100, SampleFormat::F32)) {
        Err(RecorderError::UnsupportedSampleRate(48000, 44100)) => {}
        other => panic!("unexpected {:?}", other),
    }
}

#[test]
fn merged_spec_refuses_differing_sample_sizes() {
    match wav_spec_from_configs(&config(2, 48000, SampleFormat::F32), &config(2, 48000, SampleFormat::I16)) {
        Err(RecorderError::UnsupportedSampleSize(4, 2)) => {}
        other => panic!("unexpected {:?}", other),
    }
}

#[test]
fn spec_matches_its_config() {
    let c = config(2, 44100, SampleFormat::F32);
    assert!(assert_wav_spec_from_configs(&c, Mp3Spec { channels: 2, sample_rate: 44100, bits_per_sample: 32 }));
    assert!(!assert_wav_spec_from_configs(&c, Mp3Spec { channels: 2, sample_rate: 48000, bits_per_sample: 32 }));
    assert!(!assert_wav_spec_from_configs(&c, Mp3Spec { channels: 2, sample_rate: 44100, bits_per_sample: 16 }));
}

#[test]
fn checkpoint_after_two_minutes() {
    let spec = Mp3Spec { channels: 2, sample_rate: 100, bits_per_sample: 32 };
    assert!(!should_checkpoint(spec, 0));
    assert!(!should_checkpoint(spec, 23_999));
    assert!(should_checkpoint(spec, 24_000));
    assert!(should_checkpoint(spec, 24_001));
}

#[test]
fn checkpoint_at_48k_stereo() {
    let spec = Mp3Spec { channels: 2, sample_rate: 48000, bits_per_sample: 32 };
    assert!(!should_checkpoint(spec, 11_519_999));
    assert!(should_checkpoint(spec, 11_520_000));
}

#[test]
fn wav_sample_format_of_formats() {
    assert_eq!(sample_format(SampleFormat::F32), WavSampleFormat::Float);
    assert_eq!(sample_format(SampleFormat::F64), WavSampleFormat::Float);
    assert_eq!(sample_format(SampleFormat::I16), WavSampleFormat::Int);
    assert_eq!(sample_format(SampleFormat::U8), WavSampleFormat::Int);
}

#[test]
fn wav_spec_of_a_single_stream() {
    let spec = wav_spec_from_config(&config(1, 16000, SampleFormat::I16));
    assert_eq!(spec, WavSpec { channels: 1, sample_rate: 16000, bits_per_sample: 16, sample_format: WavSampleFormat::Int });
}

#[test]
fn wav_spec_of_two_streams() {
    let spec = wav_spec_from_two_configs(&config(2, 48000, SampleFormat::F32), &config(4, 48000, SampleFormat::I16)).unwrap();
    // The smaller size (2 bytes) is counted in bits twice over.
    assert_eq!(spec, WavSpec { channels: 2, sample_rate: 48000, bits_per_sample: 128, sample_format: WavSampleFormat::Float });
    assert_eq!(
        wav_spec_from_two_configs(&config(2, 48000, SampleFormat::F32), &config(2, 44100, SampleFormat::F32)),
        Err(WavSpecError::SampleRateMismatch(48000, 44100))
    );
}
