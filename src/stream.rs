use crate::buffer::ByteQueue;
use crate::download::{payload, step_for, DownloadEvent, DownloadStep};
use vstd::prelude::*;

verus! {

/// The audio byte stream of one playback session: the buffer that the chunk
/// downloader fills, seen from the decoder as a pull source that never blocks
/// and cannot seek.
///
/// The stream owns its queue. Activities on other threads share it by
/// holding it under one lock, each operation taking the lock for just that
/// call; the contracts below are what that call does to the bytes.
pub struct AudioStream {
    buf: ByteQueue,
}

impl View for AudioStream {
    type V = Seq<u8>;

    open spec fn view(&self) -> Seq<u8> {
        self.buffer()@
    }
}

impl AudioStream {
    /// The queue that holds the stream's bytes.
    pub closed spec fn buffer(&self) -> ByteQueue {
        self.buf
    }

    /// Every byte ever appended to the stream, in order.
    pub open spec fn history(&self) -> Seq<u8> {
        self.buffer().history()
    }

    /// How many bytes were ever read from the stream.
    pub open spec fn total_read(&self) -> nat {
        self.buffer().total_drained()
    }

    pub open spec fn wf(&self) -> bool {
        self.buffer().wf()
    }

    /// A stream over a new, empty buffer.
    pub fn new() -> (s: Self)
        ensures
            s.wf(),
            s@ == Seq::<u8>::empty(),
            s.history() == Seq::<u8>::empty(),
            s.total_read() == 0,
    {
        AudioStream { buf: ByteQueue::new() }
    }

    /// The buffer, for the downloader that fills it. What is done through
    /// the handle is what the stream then holds.
    pub fn get_buf(&mut self) -> (b: &mut ByteQueue)
        ensures
            *b == old(self).buffer(),
            final(self).buffer() == *final(b),
    {
        &mut self.buf
    }

    /// The number of bytes buffered.
    pub fn len(&self) -> (n: usize)
        ensures
            n == self@.len(),
    {
        self.buf.len()
    }

    /// Adds `chunk` at the tail.
    pub fn append(&mut self, chunk: &[u8])
        requires
            old(self).wf(),
        ensures
            final(self).wf(),
            final(self)@ == old(self)@ + chunk@,
            final(self).history() == old(self).history() + chunk@,
            final(self).total_read() == old(self).total_read(),
    {
        self.buf.append(chunk)
    }

    /// One step of the chunk downloader: a chunk is appended at the tail, any
    /// other event leaves the bytes as they are, and the step says whether to
    /// go on.
    pub fn absorb(&mut self, event: &DownloadEvent) -> (step: DownloadStep)
        requires
            old(self).wf(),
        ensures
            final(self).wf(),
            final(self)@ == old(self)@ + payload(*event),
            final(self).history() == old(self).history() + payload(*event),
            final(self).total_read() == old(self).total_read(),
            step == step_for(*event),
    {
        self.buf.absorb(event)
    }

    /// Reads the buffered bytes from the head into the start of `dest`, as
    /// many as fit and as many as there are, and returns how many were read.
    /// Returns at once: 0 when nothing is buffered.
    pub fn read(&mut self, dest: &mut [u8]) -> (n: usize)
        requires
            old(self).wf(),
        ensures
            final(self).wf(),
            n == if old(dest)@.len() < old(self)@.len() {
                old(dest)@.len()
            } else {
                old(self)@.len()
            },
            final(dest)@ == old(self)@.take(n as int) + old(dest)@.skip(n as int),
            final(self)@ == old(self)@.skip(n as int),
            final(self).history() == old(self).history(),
            final(self).total_read() == old(self).total_read() + n,
    {
        self.buf.drain_into(dest)
    }

    /// The stream cannot seek: every seek leaves it where it is and reports
    /// position 0.
    pub fn seek(&self) -> (pos: u64)
        ensures
            pos == 0,
    {
        0
    }

    /// The stream's length is what was ever appended less what was ever read,
    /// never less than zero, and it holds the bytes not yet read in the order
    /// they were appended.
    pub proof fn lemma_length_accounts(&self)
        requires
            self.wf(),
        ensures
            self.total_read() <= self.history().len(),
            self@.len() == self.history().len() - self.total_read(),
            self@ == self.history().skip(self.total_read() as int),
    {
        self.buffer().lemma_length_accounts();
        self.buffer().lemma_order_kept();
    }
}

} // verus!
