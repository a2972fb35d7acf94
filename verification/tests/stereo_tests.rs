use iced_recorder::stereo::{mix_stereo, send_frame, take_frame, StereoCommand};

#[test]
fn callbacks_send_their_first_frame() {
    assert_eq!(send_frame(&[0.5f32, 0.25, 0.125]), StereoCommand::Frame(0.5, 0.25));
    assert_eq!(send_frame(&[0.5f32]), StereoCommand::Error(1));
    assert_eq!(send_frame::<f32>(&[]), StereoCommand::Error(0));
}

#[test]
fn writer_takes_only_frames() {
    assert_eq!(take_frame(Some(StereoCommand::Frame(1, 2))), Some((1, 2)));
    assert_eq!(take_frame(Some(StereoCommand::<i16>::Error(1))), None);
    assert_eq!(take_frame(Some(StereoCommand::<i16>::Stop)), None);
    assert_eq!(take_frame::<i16>(None), None);
}

#[test]
fn frames_mix_channel_by_channel() {
    assert_eq!(mix_stereo((1i16, 2), (10, 20), |a: i16, b: i16| a + b), (11, 22));
}
