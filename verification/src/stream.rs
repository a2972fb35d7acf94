//! The command loop of a capture stream: play, pause and terminate commands queued for
//! the stream's thread are applied in order.
use vstd::prelude::*;
use crate::errors::StreamError;
use crate::format::{SampleFormat, StreamConfig};

verus! {

/// A command queued for a capture stream's thread.
#[derive(Debug, Clone, Copy, PartialEq, Eq, Structural)]
pub enum Command {
    PlayStream,
    PauseStream,
    Terminate,
}

/// The state of a capture stream that its thread owns.
#[derive(Debug, Clone, Copy, PartialEq, Eq, Structural)]
pub struct StreamInner {
    /// True if the stream is currently playing, false if paused.
    pub playing: bool,
    /// Number of frames of audio data in the backend's buffer.
    pub max_frames_in_buffer: u32,
    /// Number of bytes that each frame occupies.
    pub bytes_per_frame: u16,
    /// The configuration with which the stream was created.
    pub config: StreamConfig,
    /// The sample format with which the stream was created.
    pub sample_format: SampleFormat,
}

/// Whether the stream's loop goes on or stops.
#[derive(Debug, Clone, Copy, PartialEq, Eq, Structural)]
pub enum ControlFlow {
    Break,
    Continue,
}

/// Whether the stream plays after applying `cmds`, in order, to a stream whose playing
/// flag is `playing`. Commands after the first `Terminate` are not applied.
pub open spec fn playing_after(playing: bool, cmds: Seq<Command>) -> bool
    decreases cmds.len(),
{
    if cmds.len() == 0 {
        playing
    } else {
        match cmds[0] {
            Command::PlayStream => playing_after(true, cmds.drop_first()),
            Command::PauseStream => playing_after(false, cmds.drop_first()),
            Command::Terminate => playing,
        }
    }
}

/// Whether `cmds` holds a `Terminate`.
pub open spec fn has_terminate(cmds: Seq<Command>) -> bool {
    exists|i: int| 0 <= i < cmds.len() && cmds[i] == Command::Terminate
}

proof fn lemma_playing_after_step(playing: bool, cmds: Seq<Command>, i: int)
    requires
        0 <= i < cmds.len(),
        cmds[i] != Command::Terminate,
    ensures
        playing_after(playing, cmds.skip(i)) == playing_after(
            if cmds[i] == Command::PlayStream {
                true
            } else {
                false
            },
            cmds.skip(i + 1),
        ),
{
    assert(cmds.skip(i).drop_first() =~= cmds.skip(i + 1));
}

/// A pause right after a play leaves the stream paused, whatever it was before.
pub proof fn lemma_pause_undoes_play(playing: bool)
    ensures
        playing_after(playing, seq![Command::PlayStream, Command::PauseStream]) == false,
        playing_after(playing, seq![Command::PauseStream, Command::PlayStream]) == true,
{
    assert(seq![Command::PlayStream, Command::PauseStream].drop_first() =~= seq![
        Command::PauseStream,
    ]);
    assert(seq![Command::PauseStream].drop_first() =~= Seq::<Command>::empty());
    assert(seq![Command::PauseStream, Command::PlayStream].drop_first() =~= seq![
        Command::PlayStream,
    ]);
    assert(seq![Command::PlayStream].drop_first() =~= Seq::<Command>::empty());
    reveal_with_fuel(playing_after, 3);
}

/// Nothing queued after a terminate has any effect on the stream.
pub proof fn lemma_terminate_cuts(playing: bool, pre: Seq<Command>, post: Seq<Command>)
    requires
        !has_terminate(pre),
    ensures
        playing_after(playing, pre + seq![Command::Terminate] + post) == playing_after(playing, pre),
    decreases pre.len(),
{
    let all = pre + seq![Command::Terminate] + post;
    if pre.len() == 0 {
        assert(all[0] == Command::Terminate);
    } else {
        assert(all.drop_first() =~= pre.drop_first() + seq![Command::Terminate] + post);
        assert(all[0] == pre[0]);
        assert(pre[0] != Command::Terminate);
        assert(!has_terminate(pre.drop_first())) by {
            if has_terminate(pre.drop_first()) {
                let i = choose|i: int|
                    0 <= i < pre.drop_first().len() && pre.drop_first()[i] == Command::Terminate;
                assert(pre[i + 1] == Command::Terminate);
            }
        }
        let next = if pre[0] == Command::PlayStream {
            true
        } else {
            false
        };
        lemma_terminate_cuts(next, pre.drop_first(), post);
    }
}

/// The last play or pause applied decides whether the stream plays.
pub proof fn lemma_last_command_wins(playing: bool, pre: Seq<Command>, last: Command)
    requires
        !has_terminate(pre),
        last != Command::Terminate,
    ensures
        playing_after(playing, pre.push(last)) == (last == Command::PlayStream),
    decreases pre.len(),
{
    let all = pre.push(last);
    if pre.len() == 0 {
        assert(all.drop_first() =~= Seq::<Command>::empty());
        assert(all[0] == last);
        reveal_with_fuel(playing_after, 2);
    } else {
        assert(all.drop_first() =~= pre.drop_first().push(last));
        assert(pre[0] != Command::Terminate);
        assert(!has_terminate(pre.drop_first())) by {
            if has_terminate(pre.drop_first()) {
                let i = choose|i: int|
                    0 <= i < pre.drop_first().len() && pre.drop_first()[i] == Command::Terminate;
                assert(pre[i + 1] == Command::Terminate);
            }
        }
        let next = if pre[0] == Command::PlayStream {
            true
        } else {
            false
        };
        lemma_last_command_wins(next, pre.drop_first(), last);
    }
}

/// Applies the pending `commands` to `stream`, in order: play sets the playing flag, pause
/// clears it, and a terminate stops the processing. Returns whether the stream's loop is
/// to keep running, which is so unless a terminate came.
pub fn process_commands(stream: &mut StreamInner, commands: &Vec<Command>) -> (r: Result<bool, StreamError>)
    ensures
        r matches Ok(keep) && keep == !has_terminate(commands@),
        final(stream).playing == playing_after(old(stream).playing, commands@),
        final(stream).max_frames_in_buffer == old(stream).max_frames_in_buffer,
        final(stream).bytes_per_frame == old(stream).bytes_per_frame,
        final(stream).config == old(stream).config,
        final(stream).sample_format == old(stream).sample_format,
{
    let ghost cmds = commands@;
    let ghost start = stream.playing;
    let mut i: usize = 0;
    assert(cmds.skip(0) =~= cmds);
    while i < commands.len()
        invariant
            cmds == commands@,
            i <= cmds.len(),
            playing_after(start, cmds) == playing_after(stream.playing, cmds.skip(i as int)),
            forall|j: int| 0 <= j < i ==> cmds[j] != Command::Terminate,
            stream.max_frames_in_buffer == old(stream).max_frames_in_buffer,
            stream.bytes_per_frame == old(stream).bytes_per_frame,
            stream.config == old(stream).config,
            stream.sample_format == old(stream).sample_format,
            start == old(stream).playing,
        decreases cmds.len() - i,
    {
        match commands[i] {
            Command::PlayStream => {
                proof {
                    lemma_playing_after_step(stream.playing, cmds, i as int);
                }
                if !stream.playing {
                    stream.playing = true;
                }
            },
            Command::PauseStream => {
                proof {
                    lemma_playing_after_step(stream.playing, cmds, i as int);
                }
                if stream.playing {
                    stream.playing = false;
                }
            },
            Command::Terminate => {
                assert(cmds.skip(i as int)[0] == Command::Terminate);
                return Ok(false);
            },
        }
        i = i + 1;
    }
    assert(cmds.skip(i as int) =~= Seq::<Command>::empty());
    Ok(true)
}

/// Applies the pending `commands` and says how the stream's loop goes on: `Some(Break)`
/// once a terminate came (or processing failed, in which case the error to report comes
/// along), `None` to keep waiting for data.
pub fn process_commands_and_await_signal(stream: &mut StreamInner, commands: &Vec<Command>) -> (r: (
    Option<ControlFlow>,
    Option<StreamError>,
))
    ensures
        r.0 == (if has_terminate(commands@) {
            Some(ControlFlow::Break)
        } else {
            None
        }),
        r.1 is None,
        final(stream).playing == playing_after(old(stream).playing, commands@),
        final(stream).config == old(stream).config,
        final(stream).sample_format == old(stream).sample_format,
        final(stream).max_frames_in_buffer == old(stream).max_frames_in_buffer,
        final(stream).bytes_per_frame == old(stream).bytes_per_frame,
{
    match process_commands(stream, commands) {
        Ok(true) => (None, None),
        Ok(false) => (Some(ControlFlow::Break), None),
        Err(err) => (Some(ControlFlow::Break), Some(err)),
    }
}

/// Whether the stream's loop stops after the outcome `flow` of one round of commands.
pub fn loop_stops(flow: Option<ControlFlow>) -> (stop: bool)
    ensures
        stop == (flow == Some(ControlFlow::Break)),
{
    match flow {
        Some(ControlFlow::Break) => true,
        Some(ControlFlow::Continue) => false,
        None => false,
    }
}

} // verus!
