use iced_recorder::format::{BufferSize, SampleFormat, StreamConfig};
use iced_recorder::stream::{
    loop_stops, process_commands, process_commands_and_await_signal, Command, ControlFlow,
    StreamInner,
};

fn inner(playing: bool) -> StreamInner {
    StreamInner {
        playing,
        max_frames_in_buffer: 480,
        bytes_per_frame: 8,
        config: StreamConfig { channels: 2, sample_rate: 48000, buffer_size: BufferSize::Fixed(480) },
        sample_format: SampleFormat::F32,
    }
}

#[test]
fn play_and_pause_set_the_flag() {
    let mut s = inner(false);
    assert!(matches!(process_commands(&mut s, &vec![Command::PlayStream]), Ok(true)));
    assert!(s.playing);
    assert!(matches!(process_commands(&mut s, &vec![Command::PlayStream, Command::PauseStream]), Ok(true)));
    assert!(!s.playing);
    assert!(matches!(process_commands(&mut s, &vec![]), Ok(true)));
    assert!(!s.playing);
    assert_eq!(s.max_frames_in_buffer, 480);
}

#[test]
fn terminate_stops_processing() {
    let mut s = inner(false);
    let r = process_commands(&mut s, &vec![Command::PlayStream, Command::Terminate, Command::PauseStream]);
    assert!(matches!(r, Ok(false)));
    assert!(s.playing);
}

#[test]
fn await_signal_breaks_on_terminate() {
    let mut s = inner(true);
    let (flow, err) = process_commands_and_await_signal(&mut s, &vec![Command::Terminate]);
    assert_eq!(flow, Some(ControlFlow::Break));
    assert!(err.is_none());
    let (flow, _) = process_commands_and_await_signal(&mut s, &vec![Command::PauseStream]);
    assert_eq!(flow, None);
    assert!(!s.playing);
    assert!(loop_stops(Some(ControlFlow::Break)));
    assert!(!loop_stops(Some(ControlFlow::Continue)));
    assert!(!loop_stops(None));
}
