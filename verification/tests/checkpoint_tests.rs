use iced_recorder::checkpoint::{CheckpointWriter, ChildStatus};
use iced_recorder::errors::Mp3WriterError;
use iced_recorder::spec::Mp3Spec;

fn small_spec() -> Mp3Spec {
    // Two minutes of one sample per second in stereo: 240 samples.
    Mp3Spec { channels: 2, sample_rate: 1, bits_per_sample: 32 }
}

#[test]
fn buffers_until_two_minutes() {
    let mut w: CheckpointWriter<u32> = CheckpointWriter::new(small_spec());
    assert!(w.push_frame((0..100).collect()).is_none());
    assert!(w.push_frame((100..239).collect()).is_none());
    assert_eq!(w.num_checkpoints(), 0);
    let cp = w.push_frame(vec![239, 240, 241]).expect("a checkpoint");
    assert_eq!(cp.index, 0);
    assert_eq!(cp.samples, (0..242).collect::<Vec<u32>>());
    assert_eq!(String::from_utf8(cp.thread_name).unwrap(), "checkpoint_0001");
    assert_eq!(String::from_utf8(cp.file_name).unwrap(), "checkpoint_0001.tmp");
    assert_eq!(w.num_checkpoints(), 1);
    assert!(matches!(w.result(0), ChildStatus::Pending));
}

#[test]
fn every_sample_lands_in_exactly_one_checkpoint_in_order() {
    let mut w: CheckpointWriter<u32> = CheckpointWriter::new(small_spec());
    let mut flushed = Vec::new();
    let mut next = 0u32;
    for round in 0..100u32 {
        let frame: Vec<u32> = (next..next + 7 + round % 5).collect();
        next += 7 + round % 5;
        if let Some(cp) = w.push_frame(frame) {
            assert_eq!(cp.index + 1, w.num_checkpoints());
            flushed.extend(cp.samples);
        }
    }
    assert!(w.num_checkpoints() >= 2);
    // What was flushed is a prefix of everything pushed, in order.
    assert_eq!(flushed, (0..flushed.len() as u32).collect::<Vec<u32>>());
    assert!((next as usize) - flushed.len() < 240);
}

#[test]
fn results_are_recorded_per_checkpoint() {
    let mut w: CheckpointWriter<u8> = CheckpointWriter::new(small_spec());
    let first = w.push_frame(vec![0; 240]).unwrap();
    let second = w.push_frame(vec![1; 300]).unwrap();
    assert_eq!((first.index, second.index), (0, 1));
    assert_eq!(String::from_utf8(second.file_name).unwrap(), "checkpoint_0002.tmp");
    w.record_spawn_error(0, "no threads".to_string());
    w.record_result(1, ChildStatus::Error(Mp3WriterError::WriteToFileError("full".to_string())));
    assert!(matches!(w.result(0), ChildStatus::SpawnError(m) if m == "no threads"));
    assert!(matches!(w.result(1), ChildStatus::Error(Mp3WriterError::WriteToFileError(_))));
    w.record_result(0, ChildStatus::Success);
    assert!(matches!(w.result(0), ChildStatus::Success));
    assert_eq!(w.get_spec(), small_spec());
}
