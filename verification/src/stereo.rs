//! Single-frame capture: each capture callback sends only its first stereo frame, and the
//! writer mixes one speaker frame with one microphone frame at a time.
use vstd::prelude::*;

verus! {

/// A command sent from a capture callback to the writer.
#[derive(Debug, Clone, Copy, PartialEq, Eq, Structural)]
pub enum StereoCommand<T> {
    /// The left and right samples of one frame.
    Frame(T, T),
    /// The callback received fewer than two samples; the count comes along.
    Error(usize),
    Stop,
}

/// The command a capture callback sends for `input`: its first two samples as a frame, or
/// an error carrying the number of samples when there are fewer than two.
pub fn send_frame<T: Copy>(input: &[T]) -> (c: StereoCommand<T>)
    ensures
        input@.len() < 2 ==> c == StereoCommand::<T>::Error(input@.len() as usize),
        input@.len() >= 2 ==> c == StereoCommand::Frame(input@[0], input@[1]),
{
    if input.len() < 2 {
        return StereoCommand::Error(input.len());
    }
    StereoCommand::Frame(input[0], input[1])
}

/// The frame that the writer takes from `received`, the outcome of waiting on a capture
/// channel (`None` when the channel failed). Anything but a frame ends the writer.
pub fn take_frame<T: Copy>(received: Option<StereoCommand<T>>) -> (f: Option<(T, T)>)
    ensures
        received matches Some(StereoCommand::Frame(l, r)) ==> f == Some((l, r)),
        !(received matches Some(StereoCommand::Frame(_, _))) ==> f is None,
{
    match received {
        Some(StereoCommand::Frame(l, r)) => Some((l, r)),
        _ => None,
    }
}

/// The two samples the writer writes for speaker frame `a` and microphone frame `b`: left
/// with left and right with right, joined by `combine`.
pub fn mix_stereo<T: Copy, F: Fn(T, T) -> T>(a: (T, T), b: (T, T), combine: F) -> (s: (T, T))
    requires
        forall|x: T, y: T| combine.requires((x, y)),
    ensures
        combine.ensures((a.0, b.0), s.0),
        combine.ensures((a.1, b.1), s.1),
{
    let s0 = combine(a.0, b.0);
    let s1 = combine(a.1, b.1);
    (s0, s1)
}

} // verus!
