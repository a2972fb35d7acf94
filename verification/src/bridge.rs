//! The bridge between the two capture streams and the writer.
//!
//! The bridge receives one frame from the speaker stream, then one from the microphone
//! stream, mixes them and forwards the mix downstream, over and over. A `Stop` on either
//! channel ends it quietly; a disconnected channel or a failed forward ends it with an
//! error. The waiting and sending are done by the caller; this module decides.
use vstd::prelude::*;
use vstd::string::StringExecFns;
use crate::errors::{StreamError, RecorderError};
use crate::mixer::{mix_frames, is_mix_of};

verus! {

/// A command sent on a frame channel.
#[derive(Debug, Clone)]
pub enum Command<T> {
    Frame(Vec<T>),
    Stop,
}

/// What a blocking receive on a frame channel gave.
#[derive(Debug, Clone)]
pub enum Received<T> {
    Frame(Vec<T>),
    Stop,
    Disconnected,
}

/// Where the bridge is in its cycle.
#[derive(Debug, Clone)]
pub enum BridgeState<T> {
    /// Waiting for a speaker frame.
    AwaitSpeaker,
    /// Holding a speaker frame, waiting for the microphone frame to mix it with.
    AwaitMic(Vec<T>),
    /// A mixed frame was handed downstream; waiting to learn whether it was accepted.
    AwaitForward,
    /// The bridge has ended.
    Finished,
}

/// What happened since the bridge last decided.
#[derive(Debug, Clone)]
pub enum BridgeEvent<T> {
    Speaker(Received<T>),
    Mic(Received<T>),
    /// Whether the downstream channel accepted the forwarded frame.
    Forwarded(bool),
}

/// Why the bridge ended.
#[derive(Debug, Clone, Copy, PartialEq, Eq, Structural)]
pub enum BridgeEnd {
    /// A `Stop` arrived on one of the channels.
    Stopped,
    /// The speaker channel was disconnected.
    SpeakerLost,
    /// The microphone channel was disconnected.
    MicLost,
    /// The downstream channel refused a frame.
    ForwardFailed,
}

/// What the caller is to do next.
#[derive(Debug, Clone)]
pub enum BridgeAction<T> {
    ReceiveSpeaker,
    ReceiveMic,
    /// Send `frame` downstream; `pulse` is its first sample, the level shown to the user.
    Forward { frame: Vec<T>, pulse: Option<T> },
    /// Wait for the outcome of the last forward.
    AwaitOutcome,
    /// The bridge has ended, for the given reason.
    Finish(BridgeEnd),
}

/// The action the bridge expects to be carried out while in `state`.
pub open spec fn pending_action<T>(state: BridgeState<T>) -> BridgeAction<T> {
    match state {
        BridgeState::AwaitSpeaker => BridgeAction::ReceiveSpeaker,
        BridgeState::AwaitMic(_) => BridgeAction::ReceiveMic,
        BridgeState::AwaitForward => BridgeAction::AwaitOutcome,
        BridgeState::Finished => BridgeAction::Finish(BridgeEnd::Stopped),
    }
}

/// The transition of the bridge on `event` in `state`, for all transitions that do not mix.
/// A mixing transition (a microphone frame while holding a speaker frame) is described by
/// `is_mix_step`. An event that does not fit the state leaves the state as it is.
pub open spec fn plain_step<T>(state: BridgeState<T>, event: BridgeEvent<T>) -> (BridgeState<T>, BridgeAction<T>) {
    match (state, event) {
        (BridgeState::AwaitSpeaker, BridgeEvent::Speaker(Received::Frame(a))) => (
            BridgeState::AwaitMic(a),
            BridgeAction::ReceiveMic,
        ),
        (BridgeState::AwaitSpeaker, BridgeEvent::Speaker(Received::Stop)) => (
            BridgeState::Finished,
            BridgeAction::Finish(BridgeEnd::Stopped),
        ),
        (BridgeState::AwaitSpeaker, BridgeEvent::Speaker(Received::Disconnected)) => (
            BridgeState::Finished,
            BridgeAction::Finish(BridgeEnd::SpeakerLost),
        ),
        (BridgeState::AwaitMic(_), BridgeEvent::Mic(Received::Stop)) => (
            BridgeState::Finished,
            BridgeAction::Finish(BridgeEnd::Stopped),
        ),
        (BridgeState::AwaitMic(_), BridgeEvent::Mic(Received::Disconnected)) => (
            BridgeState::Finished,
            BridgeAction::Finish(BridgeEnd::MicLost),
        ),
        (BridgeState::AwaitForward, BridgeEvent::Forwarded(true)) => (
            BridgeState::AwaitSpeaker,
            BridgeAction::ReceiveSpeaker,
        ),
        (BridgeState::AwaitForward, BridgeEvent::Forwarded(false)) => (
            BridgeState::Finished,
            BridgeAction::Finish(BridgeEnd::ForwardFailed),
        ),
        (s, _) => (s, pending_action(s)),
    }
}

/// Whether `state` and `event` make the bridge mix a speaker and a microphone frame.
pub open spec fn mixes<T>(state: BridgeState<T>, event: BridgeEvent<T>) -> bool {
    state is AwaitMic && event matches BridgeEvent::Mic(Received::Frame(_))
}

/// `next` is the mixing transition from holding speaker frame `a` on microphone frame `b`:
/// the mix of the two is forwarded, with its first sample as the pulse.
pub open spec fn is_mix_step<T, F: Fn(T, T) -> T>(
    a: Seq<T>,
    b: Seq<T>,
    combine: F,
    next: (BridgeState<T>, BridgeAction<T>),
) -> bool {
    &&& next.0 is AwaitForward
    &&& next.1 matches BridgeAction::Forward { frame, pulse } && is_mix_of(a, b, combine, frame@)
        && pulse == (if frame@.len() > 0 {
        Some(frame@[0])
    } else {
        None
    })
}

/// Advances the bridge by one event and says what the caller is to do next.
pub fn bridge_step<T: Copy, F: Fn(T, T) -> T>(
    state: BridgeState<T>,
    event: BridgeEvent<T>,
    combine: F,
) -> (next: (BridgeState<T>, BridgeAction<T>))
    requires
        forall|x: T, y: T| combine.requires((x, y)),
    ensures
        !mixes(state, event) ==> next == plain_step(state, event),
        mixes(state, event) ==> is_mix_step(
            state->AwaitMic_0@,
            event->Mic_0->Frame_0@,
            combine,
            next,
        ),
{
    match (state, event) {
        (BridgeState::AwaitSpeaker, BridgeEvent::Speaker(Received::Frame(a))) => (
            BridgeState::AwaitMic(a),
            BridgeAction::ReceiveMic,
        ),
        (BridgeState::AwaitSpeaker, BridgeEvent::Speaker(Received::Stop)) => (
            BridgeState::Finished,
            BridgeAction::Finish(BridgeEnd::Stopped),
        ),
        (BridgeState::AwaitSpeaker, BridgeEvent::Speaker(Received::Disconnected)) => (
            BridgeState::Finished,
            BridgeAction::Finish(BridgeEnd::SpeakerLost),
        ),
        (BridgeState::AwaitMic(a), BridgeEvent::Mic(Received::Frame(b))) => {
            let frame = mix_frames(a, b, combine);
            let pulse = if frame.len() > 0 {
                Some(frame[0])
            } else {
                None
            };
            (BridgeState::AwaitForward, BridgeAction::Forward { frame, pulse })
        },
        (BridgeState::AwaitMic(_), BridgeEvent::Mic(Received::Stop)) => (
            BridgeState::Finished,
            BridgeAction::Finish(BridgeEnd::Stopped),
        ),
        (BridgeState::AwaitMic(_), BridgeEvent::Mic(Received::Disconnected)) => (
            BridgeState::Finished,
            BridgeAction::Finish(BridgeEnd::MicLost),
        ),
        (BridgeState::AwaitForward, BridgeEvent::Forwarded(true)) => (
            BridgeState::AwaitSpeaker,
            BridgeAction::ReceiveSpeaker,
        ),
        (BridgeState::AwaitForward, BridgeEvent::Forwarded(false)) => (
            BridgeState::Finished,
            BridgeAction::Finish(BridgeEnd::ForwardFailed),
        ),
        (BridgeState::AwaitSpeaker, _) => (BridgeState::AwaitSpeaker, BridgeAction::ReceiveSpeaker),
        (BridgeState::AwaitMic(a), _) => (BridgeState::AwaitMic(a), BridgeAction::ReceiveMic),
        (BridgeState::AwaitForward, _) => (BridgeState::AwaitForward, BridgeAction::AwaitOutcome),
        (BridgeState::Finished, _) => (
            BridgeState::Finished,
            BridgeAction::Finish(BridgeEnd::Stopped),
        ),
    }
}

/// Once finished, the bridge stays finished whatever happens.
pub proof fn lemma_finished_is_final<T>(event: BridgeEvent<T>)
    ensures
        !mixes(BridgeState::<T>::Finished, event),
        plain_step(BridgeState::<T>::Finished, event) == (
            BridgeState::<T>::Finished,
            BridgeAction::<T>::Finish(BridgeEnd::Stopped),
        ),
{
}

/// The bridge cycles: a speaker frame makes it wait for the microphone, the microphone
/// frame makes it forward the mix, and an accepted forward makes it wait for the speaker
/// again.
pub proof fn lemma_bridge_cycle<T>(a: Vec<T>, b: Vec<T>)
    ensures
        plain_step(BridgeState::<T>::AwaitSpeaker, BridgeEvent::Speaker(Received::Frame(a))) == (
            BridgeState::AwaitMic(a),
            BridgeAction::<T>::ReceiveMic,
        ),
        mixes(BridgeState::AwaitMic(a), BridgeEvent::Mic(Received::Frame(b))),
        plain_step(BridgeState::<T>::AwaitForward, BridgeEvent::<T>::Forwarded(true)) == (
            BridgeState::<T>::AwaitSpeaker,
            BridgeAction::<T>::ReceiveSpeaker,
        ),
{
}

/// A stop on either channel ends the bridge with no error to report; a disconnected
/// channel ends it with a receive error; a refused forward with a send error.
pub proof fn lemma_bridge_ends<T>(held: Vec<T>)
    ensures
        plain_step(BridgeState::<T>::AwaitSpeaker, BridgeEvent::<T>::Speaker(Received::Stop)).1
            == BridgeAction::<T>::Finish(BridgeEnd::Stopped),
        plain_step(BridgeState::AwaitMic(held), BridgeEvent::<T>::Mic(Received::Stop)).1
            == BridgeAction::<T>::Finish(BridgeEnd::Stopped),
        spec_controller_report(BridgeEnd::Stopped) is None,
        plain_step(BridgeState::<T>::AwaitSpeaker, BridgeEvent::<T>::Speaker(Received::Disconnected)).1
            == BridgeAction::<T>::Finish(BridgeEnd::SpeakerLost),
        plain_step(BridgeState::AwaitMic(held), BridgeEvent::<T>::Mic(Received::Disconnected)).1
            == BridgeAction::<T>::Finish(BridgeEnd::MicLost),
        spec_controller_report(BridgeEnd::SpeakerLost) == Some(StreamError::RecvError),
        spec_controller_report(BridgeEnd::MicLost) == Some(StreamError::RecvError),
        plain_step(BridgeState::<T>::AwaitForward, BridgeEvent::<T>::Forwarded(false)).1
            == BridgeAction::<T>::Finish(BridgeEnd::ForwardFailed),
        spec_controller_report(BridgeEnd::ForwardFailed) == Some(StreamError::SendError),
{
}

/// The error the mixing controller reports through its error callback when the bridge
/// ends for reason `end`: a lost channel is a receive error, a refused frame a send error.
pub open spec fn spec_controller_report(end: BridgeEnd) -> Option<StreamError> {
    match end {
        BridgeEnd::Stopped => None,
        BridgeEnd::SpeakerLost | BridgeEnd::MicLost => Some(StreamError::RecvError),
        BridgeEnd::ForwardFailed => Some(StreamError::SendError),
    }
}

/// The error the mixing controller reports when the bridge ends for reason `end`.
pub fn controller_report(end: BridgeEnd) -> (r: Option<StreamError>)
    ensures
        r == spec_controller_report(end),
{
    match end {
        BridgeEnd::Stopped => None,
        BridgeEnd::SpeakerLost | BridgeEnd::MicLost => Some(StreamError::RecvError),
        BridgeEnd::ForwardFailed => Some(StreamError::SendError),
    }
}

/// The result that the frame writer returns when the bridge ends for reason `end`:
/// `Ok(false)` on a stop, a receive error naming the lost channel (`a2` for the speaker,
/// `b4` for the microphone), or a storage error carrying `write_error`, the message of the
/// writer's refusal.
pub fn writer_outcome(end: BridgeEnd, write_error: String) -> (r: Result<bool, RecorderError>)
    ensures
        end == BridgeEnd::Stopped ==> r == Ok::<bool, RecorderError>(false),
        end == BridgeEnd::SpeakerLost ==> (r matches Err(RecorderError::StreamFrameRecvError(s))
            && s@ == "a2"@),
        end == BridgeEnd::MicLost ==> (r matches Err(RecorderError::StreamFrameRecvError(s))
            && s@ == "b4"@),
        end == BridgeEnd::ForwardFailed ==> r == Err::<bool, RecorderError>(
            RecorderError::StorageStreamWriteError(write_error),
        ),
{
    proof {
        reveal_strlit("a2");
        reveal_strlit("b4");
    }
    match end {
        BridgeEnd::Stopped => Ok(false),
        BridgeEnd::SpeakerLost => Err(RecorderError::StreamFrameRecvError(String::from_str("a2"))),
        BridgeEnd::MicLost => Err(RecorderError::StreamFrameRecvError(String::from_str("b4"))),
        BridgeEnd::ForwardFailed => Err(RecorderError::StorageStreamWriteError(write_error)),
    }
}

} // verus!
