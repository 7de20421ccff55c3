use vstd::prelude::*;

verus! {

/// Why a playback session could not start, or why it ended.
#[derive(Clone, Copy, Debug, PartialEq, Eq, Structural)]
pub enum Error {
    /// The request for the stream could not be sent, or no response came back.
    Request,
    /// The station answered with a status outside `200..=299`.
    Http(u16),
    /// The audio output device could not be opened.
    DeviceOpen,
    /// No decoder could be built over the stream.
    Decode,
    /// A session is still active: it has to be stopped before another starts.
    SessionActive,
    /// The session was stopped before it finished starting.
    Stopped,
    /// The lock that shares the stream was left poisoned by a thread that
    /// panicked while holding it.
    Lock,
}

} // verus!
