use crate::buffer::ByteQueue;
use vstd::prelude::*;

verus! {

/// What the chunk downloader's wait for the next piece of the response gave.
pub enum DownloadEvent {
    /// The next chunk of the body.
    Chunk(Vec<u8>),
    /// A transient error while receiving a chunk: nothing came, and the
    /// download goes on.
    TransportError,
    /// An error after which the connection cannot deliver any more.
    ConnectionLost,
    /// The response body is complete.
    StreamEnded,
    /// The download's cancellation signal fired.
    Cancelled,
}

/// What the downloader does after an event.
#[derive(Clone, Copy, Debug, PartialEq, Eq, Structural)]
pub enum DownloadStep {
    /// Wait for the next chunk.
    Continue,
    /// Exit because it was cancelled.
    Cancelled,
    /// Exit because the stream ended or broke; the session is to be told.
    Ended,
}

/// The bytes that an event brings.
pub open spec fn payload(e: DownloadEvent) -> Seq<u8> {
    match e {
        DownloadEvent::Chunk(bytes) => bytes@,
        _ => Seq::empty(),
    }
}

/// Whether an event ends the download.
pub open spec fn ends_download(e: DownloadEvent) -> bool {
    e is ConnectionLost || e is StreamEnded || e is Cancelled
}

pub open spec fn step_for(e: DownloadEvent) -> DownloadStep {
    match e {
        DownloadEvent::Chunk(_) => DownloadStep::Continue,
        DownloadEvent::TransportError => DownloadStep::Continue,
        DownloadEvent::Cancelled => DownloadStep::Cancelled,
        _ => DownloadStep::Ended,
    }
}

/// The bytes that a download appends when its waits give `events` in turn:
/// the chunks, in order, up to the first event that ends it.
pub open spec fn downloaded(events: Seq<DownloadEvent>) -> Seq<u8>
    decreases events.len(),
{
    if events.len() == 0 || ends_download(events[0]) {
        Seq::empty()
    } else {
        payload(events[0]) + downloaded(events.skip(1))
    }
}

pub open spec fn none_ends(events: Seq<DownloadEvent>) -> bool {
    forall|i: int| 0 <= i < events.len() ==> !ends_download(#[trigger] events[i])
}

impl ByteQueue {
    /// One step of the downloader: a chunk is appended at the tail; any other
    /// event leaves the queue as it is.
    pub fn absorb(&mut self, event: &DownloadEvent) -> (step: DownloadStep)
        requires
            old(self).wf(),
        ensures
            final(self).wf(),
            final(self)@ == old(self)@ + payload(*event),
            final(self).history() == old(self).history() + payload(*event),
            final(self).total_drained() == old(self).total_drained(),
            step == step_for(*event),
    {
        match event {
            DownloadEvent::Chunk(bytes) => {
                self.append(bytes.as_slice());
                DownloadStep::Continue
            },
            _ => {
                proof {
                    assert(self@ + Seq::<u8>::empty() =~= self@);
                    assert(self.history() + Seq::<u8>::empty() =~= self.history());
                }
                match event {
                    DownloadEvent::Cancelled => DownloadStep::Cancelled,
                    DownloadEvent::TransportError => DownloadStep::Continue,
                    _ => DownloadStep::Ended,
                }
            },
        }
    }
}

/// Absorbing one more event appends what `downloaded` adds for it, as long as
/// no earlier event has ended the download: step by step, the downloader
/// appends exactly `downloaded` of what it received.
pub proof fn lemma_downloaded_extends(events: Seq<DownloadEvent>, e: DownloadEvent)
    requires
        none_ends(events),
    ensures
        downloaded(events.push(e)) == downloaded(events) + payload(e),
    decreases events.len(),
{
    if events.len() == 0 {
        assert(events.push(e).skip(1) =~= Seq::<DownloadEvent>::empty());
        if !ends_download(e) {
            assert(downloaded(events.push(e)) == payload(e) + downloaded(Seq::empty()));
        }
        assert(Seq::<u8>::empty() + payload(e) =~= payload(e));
        assert(payload(e) + Seq::<u8>::empty() =~= payload(e));
    } else {
        let rest = events.skip(1);
        assert(events.push(e)[0] == events[0]);
        assert(events.push(e).skip(1) =~= rest.push(e));
        assert(none_ends(rest)) by {
            assert forall|i: int| 0 <= i < rest.len() implies !ends_download(#[trigger] rest[i]) by {
                assert(rest[i] == events[i + 1]);
            }
        }
        assert(!ends_download(events[0]));
        lemma_downloaded_extends(rest, e);
        assert(payload(events[0]) + (downloaded(rest) + payload(e)) =~= (payload(events[0])
            + downloaded(rest)) + payload(e));
    }
}

/// A transport error drops nothing: when the event at `k` is one and no
/// event before it ended the download, the chunks after it are appended just
/// as they would have been without it.
pub proof fn lemma_transport_error_tolerated(events: Seq<DownloadEvent>, k: int)
    requires
        0 <= k < events.len(),
        events[k] is TransportError,
        none_ends(events.take(k)),
    ensures
        downloaded(events) == downloaded(events.take(k)) + downloaded(events.skip(k + 1)),
    decreases k,
{
    if k == 0 {
        assert(events.take(0) =~= Seq::<DownloadEvent>::empty());
        assert(payload(events[0]) =~= Seq::<u8>::empty());
        assert(Seq::<u8>::empty() + downloaded(events.skip(1)) =~= downloaded(events.skip(1)));
    } else {
        let rest = events.skip(1);
        assert(events.take(k)[0] == events[0]);
        assert(!ends_download(events[0]));
        assert(rest[k - 1] == events[k]);
        assert(rest.take(k - 1) =~= events.take(k).skip(1));
        assert(none_ends(rest.take(k - 1))) by {
            assert forall|i: int| 0 <= i < rest.take(k - 1).len() implies !ends_download(
                #[trigger] rest.take(k - 1)[i],
            ) by {
                assert(rest.take(k - 1)[i] == events.take(k)[i + 1]);
            }
        }
        lemma_transport_error_tolerated(rest, k - 1);
        assert(rest.skip(k) =~= events.skip(k + 1));
        assert(downloaded(events.take(k)) == payload(events[0]) + downloaded(
            events.take(k).skip(1),
        ));
        assert(payload(events[0]) + (downloaded(rest.take(k - 1)) + downloaded(rest.skip(k)))
            =~= (payload(events[0]) + downloaded(rest.take(k - 1))) + downloaded(rest.skip(k)));
    }
}

} // verus!
