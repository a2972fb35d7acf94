//! The writer stream's state: mixed samples are buffered until two minutes of audio have
//! gathered, then the buffer is handed off as a numbered checkpoint to be encoded by a
//! child; the outcome of each child is tracked in a table.
use vstd::prelude::*;
use crate::errors::Mp3WriterError;
use crate::spec::{Mp3Spec, should_checkpoint, checkpoint_size_fits, two_minutes_of_samples};
use crate::naming::{checkpoint_label, checkpoint_file_name, spec_checkpoint_label, spec_checkpoint_file_name};

verus! {

/// The outcome of the child that encodes one checkpoint.
#[derive(Debug, Clone)]
pub enum ChildStatus {
    Error(Mp3WriterError),
    SpawnError(String),
    RecvError(String),
    Success,
    Pending,
}

/// A buffer handed off for encoding.
pub struct Checkpoint<T> {
    /// Position of this checkpoint in the results table.
    pub index: usize,
    /// Name of the child that encodes it, such as `checkpoint_0001`.
    pub thread_name: Vec<u8>,
    /// Name of the file it is written to, such as `checkpoint_0001.tmp`.
    pub file_name: Vec<u8>,
    /// The interleaved samples to encode.
    pub samples: Vec<T>,
}

/// The state of a writer stream.
pub struct CheckpointWriter<T> {
    spec: Mp3Spec,
    buffer: Vec<T>,
    num_checkpoints: usize,
    checkpoint_results: Vec<ChildStatus>,
    /// Every sample handed to the writer so far, in order.
    received: Ghost<Seq<T>>,
    /// The samples of every checkpoint handed off so far, in order.
    flushed: Ghost<Seq<T>>,
}

impl<T> CheckpointWriter<T> {
    /// The spec the checkpoints are written with.
    pub closed spec fn spec(&self) -> Mp3Spec {
        self.spec
    }

    /// The samples gathered since the last checkpoint.
    pub closed spec fn buffered(&self) -> Seq<T> {
        self.buffer@
    }

    /// The outcome recorded for each checkpoint, by index.
    pub closed spec fn results(&self) -> Seq<ChildStatus> {
        self.checkpoint_results@
    }

    /// Every sample handed to the writer so far, in order.
    pub closed spec fn received(&self) -> Seq<T> {
        self.received@
    }

    /// The samples of every checkpoint handed off so far, in order.
    pub closed spec fn flushed(&self) -> Seq<T> {
        self.flushed@
    }

    /// The number of checkpoints handed off so far.
    pub closed spec fn checkpoint_count(&self) -> nat {
        self.num_checkpoints as nat
    }

    /// The writer's invariant: no sample is lost or reordered (what was checkpointed,
    /// followed by what is buffered, is all that was received), and there is one result per
    /// checkpoint.
    pub closed spec fn wf(&self) -> bool {
        &&& self.flushed@ + self.buffer@ == self.received@
        &&& self.checkpoint_results@.len() == self.num_checkpoints
    }

    /// An empty writer for `spec`.
    pub fn new(spec: Mp3Spec) -> (w: Self)
        ensures
            w.wf(),
            w.spec() == spec,
            w.buffered() == Seq::<T>::empty(),
            w.received() == Seq::<T>::empty(),
            w.flushed() == Seq::<T>::empty(),
            w.results() == Seq::<ChildStatus>::empty(),
            w.checkpoint_count() == 0,
    {
        let w = CheckpointWriter {
            spec,
            buffer: Vec::new(),
            num_checkpoints: 0,
            checkpoint_results: Vec::new(),
            received: Ghost(Seq::empty()),
            flushed: Ghost(Seq::empty()),
        };
        assert(w.flushed@ + w.buffer@ =~= w.received@);
        w
    }

    /// Adds `frame` to the buffer. Once the buffer holds two minutes of audio, it is handed
    /// off whole as the next checkpoint, whose result starts out `Pending`.
    pub fn push_frame(&mut self, frame: Vec<T>) -> (c: Option<Checkpoint<T>>)
        requires
            old(self).wf(),
            checkpoint_size_fits(old(self).spec()),
            old(self).checkpoint_count() < usize::MAX,
        ensures
            final(self).wf(),
            final(self).spec() == old(self).spec(),
            final(self).received() == old(self).received() + frame@,
            ({
                let all = old(self).buffered() + frame@;
                if two_minutes_of_samples(old(self).spec()) <= all.len() {
                    &&& c matches Some(cp)
                    &&& cp.samples@ == all
                    &&& cp.index == old(self).checkpoint_count()
                    &&& cp.thread_name@ == spec_checkpoint_label((cp.index + 1) as nat)
                    &&& cp.file_name@ == spec_checkpoint_file_name((cp.index + 1) as nat)
                    &&& final(self).buffered() == Seq::<T>::empty()
                    &&& final(self).flushed() == old(self).flushed() + all
                    &&& final(self).checkpoint_count() == old(self).checkpoint_count() + 1
                    &&& final(self).results() == old(self).results().push(ChildStatus::Pending)
                } else {
                    &&& c is None
                    &&& final(self).buffered() == all
                    &&& final(self).flushed() == old(self).flushed()
                    &&& final(self).checkpoint_count() == old(self).checkpoint_count()
                    &&& final(self).results() == old(self).results()
                }
            }),
    {
        let mut sample = frame;
        let ghost frame_view = sample@;
        self.buffer.append(&mut sample);
        proof {
            self.received@ = self.received@ + frame_view;
            assert(self.flushed@ + self.buffer@ =~= self.received@);
        }
        if !should_checkpoint(self.spec, self.buffer.len()) {
            return None;
        }
        let idx = self.num_checkpoints;
        self.num_checkpoints = self.num_checkpoints + 1;
        let thread_name = checkpoint_label(self.num_checkpoints);
        let file_name = checkpoint_file_name(self.num_checkpoints);
        self.checkpoint_results.push(ChildStatus::Pending);
        let mut samples: Vec<T> = Vec::new();
        std::mem::swap(&mut samples, &mut self.buffer);
        proof {
            self.flushed@ = self.flushed@ + samples@;
            assert(self.flushed@ + self.buffer@ =~= self.received@);
        }
        Some(Checkpoint { index: idx, thread_name, file_name, samples })
    }

    /// Records that the child for checkpoint `index` could not be started; `message` says why.
    pub fn record_spawn_error(&mut self, index: usize, message: String)
        requires
            old(self).wf(),
            index < old(self).results().len(),
        ensures
            final(self).wf(),
            final(self).results() == old(self).results().update(
                index as int,
                ChildStatus::SpawnError(message),
            ),
            final(self).spec() == old(self).spec(),
            final(self).buffered() == old(self).buffered(),
            final(self).received() == old(self).received(),
            final(self).flushed() == old(self).flushed(),
            final(self).checkpoint_count() == old(self).checkpoint_count(),
    {
        self.checkpoint_results.set(index, ChildStatus::SpawnError(message));
    }

    /// Records the outcome reported by the child for checkpoint `index`.
    pub fn record_result(&mut self, index: usize, status: ChildStatus)
        requires
            old(self).wf(),
            index < old(self).results().len(),
        ensures
            final(self).wf(),
            final(self).results() == old(self).results().update(index as int, status),
            final(self).spec() == old(self).spec(),
            final(self).buffered() == old(self).buffered(),
            final(self).received() == old(self).received(),
            final(self).flushed() == old(self).flushed(),
            final(self).checkpoint_count() == old(self).checkpoint_count(),
    {
        self.checkpoint_results.set(index, status);
    }

    /// The number of checkpoints handed off so far.
    pub fn num_checkpoints(&self) -> (n: usize)
        ensures
            n == self.checkpoint_count(),
    {
        self.num_checkpoints
    }

    /// The spec the checkpoints are written with.
    pub fn get_spec(&self) -> (s: Mp3Spec)
        ensures
            s == self.spec(),
    {
        self.spec
    }

    /// The outcome recorded for checkpoint `index`.
    pub fn result(&self, index: usize) -> (s: &ChildStatus)
        requires
            index < self.results().len(),
        ensures
            *s == self.results()[index as int],
    {
        &self.checkpoint_results[index]
    }
}

/// No sample is lost or reordered: at every point, the samples of all checkpoints handed
/// off, followed by the samples still buffered, are exactly the samples received.
pub proof fn lemma_samples_conserved<T>(w: &CheckpointWriter<T>)
    requires
        w.wf(),
    ensures
        w.flushed() + w.buffered() == w.received(),
        w.results().len() == w.checkpoint_count(),
{
}

} // verus!
