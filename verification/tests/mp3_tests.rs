use iced_recorder::errors::Mp3WriterError;
use iced_recorder::mp3::{
    initialize_buffer, initialize_buffer_for, initialize_encoder, max_required_buffer_size,
    build_failure, settings_of, LameBuildError, Mp3SampleBuffer, Mp3Writer,
};
use iced_recorder::spec::Mp3Spec;

fn spec() -> Mp3Spec {
    Mp3Spec { channels: 2, sample_rate: 44100, bits_per_sample: 32 }
}

#[test]
fn buffer_size_adds_a_quarter_and_a_frame() {
    assert_eq!(max_required_buffer_size(0), 7200);
    assert_eq!(max_required_buffer_size(100), 7325);
    assert_eq!(max_required_buffer_size(101), 7327);
    assert_eq!(max_required_buffer_size(4), 7205);
}

#[test]
fn buffer_size_wraps_like_lame() {
    assert_eq!(max_required_buffer_size(usize::MAX), usize::MAX / 4 + 7200);
    assert_eq!(max_required_buffer_size(usize::MAX), mp3lame_encoder::max_required_buffer_size(usize::MAX));
    assert_eq!(max_required_buffer_size(12345), mp3lame_encoder::max_required_buffer_size(12345));
}

#[test]
fn output_buffers_start_empty_with_room() {
    let b = initialize_buffer(1000);
    assert!(b.is_empty());
    assert!(b.capacity() >= 8450);
    let b = initialize_buffer_for(&spec(), 1000);
    assert!(b.is_empty());
    assert!(b.capacity() >= 2000 + 500 + 7200);
}

#[test]
fn encoder_settings_follow_the_spec() {
    assert_eq!(settings_of(&spec()), (2, 44100));
    let wide = Mp3Spec { channels: 1, sample_rate: 0x1_0000_0000 + 8000, bits_per_sample: 16 };
    assert_eq!(settings_of(&wide), (1, 8000));
}

#[test]
fn encoder_builds_for_a_stereo_spec() {
    let e = initialize_encoder(&spec()).ok().unwrap();
    assert_eq!(e.inner.num_channels(), 2);
    assert_eq!(e.inner.sample_rate(), 44100);
    let w = Mp3Writer::new(Vec::<u8>::new(), spec()).ok().unwrap();
    assert_eq!(w.spec, spec());
    assert_eq!(w.encoder.inner.num_channels(), 2);
    assert_eq!(w.encoder.inner.sample_rate(), 44100);
    assert!(w.writer.is_empty());
}

#[test]
fn encoder_refuses_a_bad_channel_count() {
    let bad = Mp3Spec { channels: 7, sample_rate: 44100, bits_per_sample: 32 };
    match initialize_encoder(&bad) {
        Err(Mp3WriterError::EncoderBuildError(m)) => assert_eq!(m, "error"),
        _ => panic!("expected an encoder build error"),
    }
    let none = Mp3Spec { channels: 0, sample_rate: 44100, bits_per_sample: 32 };
    assert!(matches!(initialize_encoder(&none), Err(Mp3WriterError::EncoderBuildError(_))));
    assert!(Mp3Writer::new(Vec::<u8>::new(), bad).is_err());
}

#[test]
fn encoder_refuses_a_zero_sample_rate() {
    let bad = Mp3Spec { channels: 2, sample_rate: 0, bits_per_sample: 32 };
    match initialize_encoder(&bad) {
        Err(Mp3WriterError::EncoderBuildError(m)) => assert_eq!(m, "error"),
        _ => panic!("expected an encoder build error"),
    }
    // A rate that is zero once cut to 32 bits is refused too.
    let wrapped = Mp3Spec { channels: 2, sample_rate: 0x1_0000_0000, bits_per_sample: 32 };
    assert!(initialize_encoder(&wrapped).is_err());
}

#[test]
fn mono_encoder_builds() {
    let mono = Mp3Spec { channels: 1, sample_rate: 48000, bits_per_sample: 32 };
    let e = initialize_encoder(&mono).ok().unwrap();
    assert_eq!(e.inner.num_channels(), 1);
    assert_eq!(e.inner.sample_rate(), 48000);
}

#[test]
fn sample_buffer_gathers_samples() {
    let mut b: Mp3SampleBuffer<f32> = Mp3SampleBuffer::new(spec());
    assert_eq!(b.samples_buffered(), 0);
    b.write_sample(0.5).unwrap();
    b.write_sample(-0.5).unwrap();
    assert_eq!(b.samples_buffered(), 2);
    assert_eq!(b.interleaved(), &vec![0.5f32, -0.5]);
    assert_eq!(b.get_spec(), spec());
    assert!(b.output_buffer().is_empty());
}

#[test]
fn set_up_failures_carry_lame_descriptions() {
    let text = |e| match build_failure(e) {
        Mp3WriterError::EncoderBuildError(m) => m,
        _ => panic!("expected an encoder build error"),
    };
    assert_eq!(text(LameBuildError::Generic), "error");
    assert_eq!(text(LameBuildError::NoMem), "alloc failure");
    assert_eq!(text(LameBuildError::Other(-42)), "error code=-42");
}
