use crate::activity::{Activity, ActivityState, StopPlan};
use crate::error::Error;
use crate::station::RadioStation;
use vstd::prelude::*;

verus! {

/// Bytes that must be buffered before playback may start.
pub const START_THRESHOLD: usize = 10240;

/// How long a stop waits for the activities to exit before aborting them.
pub const STOP_GRACE_MILLIS: u64 = 50;

/// The stage a session has reached.
#[derive(Clone, Copy, Debug, PartialEq, Eq, Structural)]
pub enum Phase {
    /// The request for the stream is on its way.
    Connecting,
    /// The downloader runs; playback waits for the threshold.
    Buffering,
    /// Playback and volume workers run.
    Playing,
    /// Every signal has fired; the activities are being waited for.
    Stopping,
}

/// Why a session ended.
#[derive(Clone, Copy, Debug, PartialEq, Eq, Structural)]
pub enum EndReason {
    /// A caller stopped it.
    Stopped,
    /// The response stream ended, or broke, without a stop.
    StreamEnded,
    /// The playback worker failed.
    Failed(Error),
}

/// What the threshold gate tells the caller after a look at the buffer.
#[derive(Debug, PartialEq, Eq)]
pub enum GateDecision<V> {
    /// Too few bytes yet: yield and look again.
    Wait,
    /// Enough bytes: launch the playback and volume workers at this volume.
    Launch(V),
    /// No session is buffering any more: give up waiting.
    Abandon,
}

/// One playback session: its station, its stage, the volume last asked for,
/// and its three activities, each with its own cancellation signal.
pub struct StreamState<V> {
    pub station: RadioStation,
    pub phase: Phase,
    pub volume: V,
    /// Bytes buffered when playback was launched.
    pub launched_with: usize,
    pub download: Activity,
    pub playback: Activity,
    pub volume_worker: Activity,
    pub end: Option<EndReason>,
}

/// A success status: `200..=299`.
pub open spec fn is_success(status: u16) -> bool {
    200 <= status <= 299
}

impl<V> StreamState<V> {
    /// A new session: connecting, nothing launched, no signal fired.
    pub open spec fn fresh(station: RadioStation, volume: V) -> StreamState<V> {
        StreamState {
            station,
            phase: Phase::Connecting,
            volume,
            launched_with: 0,
            download: Activity::idle(),
            playback: Activity::idle(),
            volume_worker: Activity::idle(),
            end: None,
        }
    }

    /// The stage invariant. Playback is never launched before `threshold`
    /// bytes were buffered, and a stopping session has nothing running.
    pub open spec fn wf(self, threshold: usize) -> bool {
        &&& self.phase is Connecting ==> {
            &&& self.download == Activity::idle()
            &&& self.playback == Activity::idle()
            &&& self.volume_worker == Activity::idle()
        }
        &&& self.phase is Buffering ==> {
            &&& self.download.state is Running
            &&& self.playback == Activity::idle()
            &&& self.volume_worker == Activity::idle()
        }
        &&& !(self.playback.state is NotStarted) ==> self.launched_with >= threshold
        &&& self.phase is Stopping ==> {
            &&& !(self.download.state is Running)
            &&& !(self.playback.state is Running)
            &&& !(self.volume_worker.state is Running)
        }
        &&& !(self.phase is Stopping) ==> self.end is None
    }

    /// No activity is running or waiting to exit.
    pub open spec fn all_finished(self) -> bool {
        &&& self.download.is_finished()
        &&& self.playback.is_finished()
        &&& self.volume_worker.is_finished()
    }

    /// After a success status: the downloader runs.
    pub open spec fn downloading(self) -> StreamState<V> {
        StreamState {
            phase: Phase::Buffering,
            download: self.download.with_state(ActivityState::Running),
            ..self
        }
    }

    /// Once `buffered` bytes were enough to start: the playback and volume
    /// workers run.
    pub open spec fn launched(self, buffered: usize) -> StreamState<V> {
        StreamState {
            phase: Phase::Playing,
            launched_with: buffered,
            playback: self.playback.with_state(ActivityState::Running),
            volume_worker: self.volume_worker.with_state(ActivityState::Running),
            ..self
        }
    }

    pub open spec fn with_volume(self, level: V) -> StreamState<V> {
        StreamState { volume: level, ..self }
    }

    /// After every signal has fired for `reason`; a reason already recorded
    /// is kept.
    pub open spec fn halted(self, reason: EndReason) -> StreamState<V> {
        StreamState {
            phase: Phase::Stopping,
            download: self.download.halted(),
            playback: self.playback.halted(),
            volume_worker: self.volume_worker.halted(),
            end: if self.end is Some {
                self.end
            } else {
                Some(reason)
            },
            ..self
        }
    }

    /// The signals that halting fires: those that had not fired.
    pub open spec fn halt_plan(self) -> StopPlan {
        StopPlan {
            download: !self.download.signal.fired,
            playback: !self.playback.signal.fired,
            volume: !self.volume_worker.signal.fired,
        }
    }

    /// After the downloader exited by itself.
    pub open spec fn download_exited(self) -> StreamState<V> {
        StreamState { download: self.download.with_state(ActivityState::Exited), ..self }
    }

    /// After the playback worker exited by itself.
    pub open spec fn playback_exited(self) -> StreamState<V> {
        StreamState { playback: self.playback.with_state(ActivityState::Exited), ..self }
    }

    /// After the grace period, given which activities exited.
    pub open spec fn settled(self, download: bool, playback: bool, volume: bool) -> StreamState<V> {
        StreamState {
            download: self.download.settled(download),
            playback: self.playback.settled(playback),
            volume_worker: self.volume_worker.settled(volume),
            ..self
        }
    }

    /// The name of the station.
    pub fn get_name(&self) -> (r: &str)
        ensures
            r@ == self.station.name@,
    {
        self.station.name.as_str()
    }

    /// The URL of the station's stream.
    pub fn get_url(&self) -> (r: &str)
        ensures
            r@ == self.station.url@,
    {
        self.station.url.as_str()
    }

    /// Fires every signal that has not fired yet and moves the session to
    /// `Stopping`, recording `reason` unless a reason is recorded. Returns the
    /// signals that this call fired.
    pub fn shutdown(&mut self, reason: EndReason) -> (plan: StopPlan)
        ensures
            *final(self) == old(self).halted(reason),
            plan == old(self).halt_plan(),
    {
        self.phase = Phase::Stopping;
        let download = self.download.halt();
        let playback = self.playback.halt();
        let volume = self.volume_worker.halt();
        if self.end.is_none() {
            self.end = Some(reason);
        }
        StopPlan { download, playback, volume }
    }
}

/// Owns the one playback session that may exist at a time, and decides each
/// step of its life from what the caller reports: the response, the buffer's
/// length, a failure, a stop.
pub struct SessionManager<V> {
    threshold: usize,
    current: Option<StreamState<V>>,
}

impl<V: Copy> SessionManager<V> {
    pub closed spec fn spec_threshold(self) -> usize {
        self.threshold
    }

    pub closed spec fn session(self) -> Option<StreamState<V>> {
        self.current
    }

    pub open spec fn wf(self) -> bool {
        match self.session() {
            Some(s) => s.wf(self.spec_threshold()),
            None => true,
        }
    }

    pub open spec fn in_phase(self, p: Phase) -> bool {
        self.session() matches Some(s) && s.phase == p
    }

    /// The session that a stop leaves.
    pub open spec fn stopped_session(self) -> Option<StreamState<V>> {
        match self.session() {
            Some(s) => Some(s.halted(EndReason::Stopped)),
            None => None,
        }
    }

    /// The signals that a stop fires.
    pub open spec fn stop_plan(self) -> StopPlan {
        match self.session() {
            Some(s) => s.halt_plan(),
            None => StopPlan::nothing(),
        }
    }

    /// No session yet; playback may start once `threshold` bytes are buffered.
    pub fn new(threshold: usize) -> (m: Self)
        ensures
            m.wf(),
            m.spec_threshold() == threshold,
            m.session() is None,
    {
        SessionManager { threshold, current: None }
    }

    /// The bytes that must be buffered before playback starts.
    pub fn threshold(&self) -> (t: usize)
        ensures
            t == self.spec_threshold(),
    {
        self.threshold
    }

    /// Whether a session exists, one that has not been settled after a stop.
    pub fn is_active(&self) -> (r: bool)
        ensures
            r == self.session() is Some,
    {
        self.current.is_some()
    }

    /// The session, if any.
    pub fn current(&self) -> (r: Option<&StreamState<V>>)
        ensures
            match r {
                Some(s) => self.session() == Some(*s),
                None => self.session() is None,
            },
    {
        match &self.current {
            Some(s) => Some(s),
            None => None,
        }
    }

    /// Starts a session for `station`. While another session exists this
    /// fails with `SessionActive` and changes nothing: that one has to be
    /// stopped first.
    pub fn start(&mut self, station: RadioStation, initial_volume: V) -> (r: Result<(), Error>)
        requires
            old(self).wf(),
        ensures
            final(self).wf(),
            final(self).spec_threshold() == old(self).spec_threshold(),
            old(self).session() is Some ==> r == Err::<(), Error>(Error::SessionActive)
                && final(self).session() == old(self).session(),
            old(self).session() is None ==> r is Ok && final(self).session() == Some(
                StreamState::fresh(station, initial_volume),
            ),
    {
        if self.current.is_some() {
            return Err(Error::SessionActive);
        }
        let s = StreamState {
            station,
            phase: Phase::Connecting,
            volume: initial_volume,
            launched_with: 0,
            download: Activity::new(),
            playback: Activity::new(),
            volume_worker: Activity::new(),
            end: None,
        };
        self.current = Some(s);
        Ok(())
    }

    /// The station answered with `status`. On a success the downloader is to
    /// be launched. On any other status the session is dropped, with none of
    /// its activities ever launched. When no session is connecting (it was
    /// stopped meanwhile), this fails with `Stopped` and changes nothing.
    pub fn on_connected(&mut self, status: u16) -> (r: Result<(), Error>)
        requires
            old(self).wf(),
        ensures
            final(self).wf(),
            final(self).spec_threshold() == old(self).spec_threshold(),
            !old(self).in_phase(Phase::Connecting) ==> r == Err::<(), Error>(Error::Stopped)
                && final(self).session() == old(self).session(),
            old(self).in_phase(Phase::Connecting) && is_success(status) ==> r is Ok
                && final(self).session() == Some(old(self).session()->0.downloading()),
            old(self).in_phase(Phase::Connecting) && !is_success(status) ==> r == Err::<(), Error>(
                Error::Http(status),
            ) && final(self).session() is None && old(self).session()->0.all_finished(),
    {
        let cur = self.current.take();
        match cur {
            Some(mut s) => {
                if let Phase::Connecting = s.phase {
                    if 200 <= status && status <= 299 {
                        s.phase = Phase::Buffering;
                        s.download.state = ActivityState::Running;
                        self.current = Some(s);
                        Ok(())
                    } else {
                        Err(Error::Http(status))
                    }
                } else {
                    self.current = Some(s);
                    Err(Error::Stopped)
                }
            },
            None => Err(Error::Stopped),
        }
    }

    /// The request could not be sent. The connecting session is dropped, with
    /// none of its activities ever launched; when none is connecting, nothing
    /// changes.
    pub fn on_request_failed(&mut self) -> (e: Error)
        requires
            old(self).wf(),
        ensures
            final(self).wf(),
            final(self).spec_threshold() == old(self).spec_threshold(),
            !old(self).in_phase(Phase::Connecting) ==> e == Error::Stopped && final(self).session()
                == old(self).session(),
            old(self).in_phase(Phase::Connecting) ==> e == Error::Request && final(self).session() is None
                && old(self).session()->0.all_finished(),
    {
        let cur = self.current.take();
        match cur {
            Some(s) => {
                if let Phase::Connecting = s.phase {
                    Error::Request
                } else {
                    self.current = Some(s);
                    Error::Stopped
                }
            },
            None => Error::Stopped,
        }
    }

    /// The threshold gate: `buffered` bytes are in the buffer. Playback is
    /// launched only once they reach the threshold.
    pub fn on_buffered(&mut self, buffered: usize) -> (d: GateDecision<V>)
        requires
            old(self).wf(),
        ensures
            final(self).wf(),
            final(self).spec_threshold() == old(self).spec_threshold(),
            d is Launch ==> buffered >= old(self).spec_threshold(),
            !old(self).in_phase(Phase::Buffering) ==> d is Abandon && final(self).session()
                == old(self).session(),
            old(self).in_phase(Phase::Buffering) && buffered < old(self).spec_threshold() ==> d is Wait
                && final(self).session() == old(self).session(),
            old(self).in_phase(Phase::Buffering) && buffered >= old(self).spec_threshold() ==> d
                == GateDecision::Launch(old(self).session()->0.volume) && final(self).session()
                == Some(old(self).session()->0.launched(buffered)),
    {
        let cur = self.current.take();
        match cur {
            Some(mut s) => {
                if let Phase::Buffering = s.phase {
                    if buffered >= self.threshold {
                        s.phase = Phase::Playing;
                        s.launched_with = buffered;
                        s.playback.state = ActivityState::Running;
                        s.volume_worker.state = ActivityState::Running;
                        let v = s.volume;
                        self.current = Some(s);
                        GateDecision::Launch(v)
                    } else {
                        self.current = Some(s);
                        GateDecision::Wait
                    }
                } else {
                    self.current = Some(s);
                    GateDecision::Abandon
                }
            },
            None => GateDecision::Abandon,
        }
    }

    /// Records `level` as the session's volume. Returns whether the volume
    /// worker runs, so that the level is to be sent to it; a session not yet
    /// playing keeps the level for when its workers launch. Without a live
    /// session (none, or one stopping) this does nothing.
    pub fn set_volume(&mut self, level: V) -> (forward: bool)
        requires
            old(self).wf(),
        ensures
            final(self).wf(),
            final(self).spec_threshold() == old(self).spec_threshold(),
            (old(self).session() is None || old(self).in_phase(Phase::Stopping)) ==> !forward
                && final(self).session() == old(self).session(),
            old(self).session() matches Some(s) ==> (!(s.phase is Stopping) ==> {
                &&& forward == s.volume_worker.state is Running
                &&& final(self).session() == Some(s.with_volume(level))
            }),
    {
        let cur = self.current.take();
        match cur {
            Some(mut s) => {
                if let Phase::Stopping = s.phase {
                    self.current = Some(s);
                    false
                } else {
                    s.volume = level;
                    let forward = if let ActivityState::Running = s.volume_worker.state {
                        true
                    } else {
                        false
                    };
                    self.current = Some(s);
                    forward
                }
            },
            None => false,
        }
    }

    /// Stops the session: fires every cancellation signal that has not fired
    /// and returns those it fired, for the caller to pass on. The caller then
    /// waits for the activities, up to the grace period, and settles the
    /// session. Never fails; a second call fires nothing.
    pub fn stop(&mut self) -> (plan: StopPlan)
        requires
            old(self).wf(),
        ensures
            final(self).wf(),
            final(self).spec_threshold() == old(self).spec_threshold(),
            final(self).session() == old(self).stopped_session(),
            plan == old(self).stop_plan(),
    {
        let cur = self.current.take();
        match cur {
            Some(mut s) => {
                let plan = s.shutdown(EndReason::Stopped);
                self.current = Some(s);
                plan
            },
            None => StopPlan::none(),
        }
    }

    /// The downloader ended by itself (the stream ended or broke) with no stop
    /// asked for: the session is torn down as by a stop, and ends with
    /// `StreamEnded`. Otherwise nothing changes.
    pub fn on_stream_ended(&mut self) -> (plan: StopPlan)
        requires
            old(self).wf(),
        ensures
            final(self).wf(),
            final(self).spec_threshold() == old(self).spec_threshold(),
            !(old(self).session() matches Some(s) && s.download.state is Running) ==> plan
                == StopPlan::nothing() && final(self).session() == old(self).session(),
            old(self).session() matches Some(s) ==> (s.download.state is Running ==> {
                &&& final(self).session() == Some(
                    s.download_exited().halted(EndReason::StreamEnded),
                )
                &&& plan == s.download_exited().halt_plan()
            }),
    {
        let cur = self.current.take();
        match cur {
            Some(mut s) => {
                if let ActivityState::Running = s.download.state {
                    s.download.state = ActivityState::Exited;
                    let plan = s.shutdown(EndReason::StreamEnded);
                    self.current = Some(s);
                    plan
                } else {
                    self.current = Some(s);
                    StopPlan::none()
                }
            },
            None => StopPlan::none(),
        }
    }

    /// The playback worker failed with `err` (no device, no decoder): the
    /// session is torn down as by a stop, and ends with that failure.
    /// Otherwise nothing changes.
    pub fn on_playback_failed(&mut self, err: Error) -> (plan: StopPlan)
        requires
            old(self).wf(),
        ensures
            final(self).wf(),
            final(self).spec_threshold() == old(self).spec_threshold(),
            !(old(self).session() matches Some(s) && s.playback.state is Running) ==> plan
                == StopPlan::nothing() && final(self).session() == old(self).session(),
            old(self).session() matches Some(s) ==> (s.playback.state is Running ==> {
                &&& final(self).session() == Some(
                    s.playback_exited().halted(EndReason::Failed(err)),
                )
                &&& plan == s.playback_exited().halt_plan()
            }),
    {
        let cur = self.current.take();
        match cur {
            Some(mut s) => {
                if let ActivityState::Running = s.playback.state {
                    s.playback.state = ActivityState::Exited;
                    let plan = s.shutdown(EndReason::Failed(err));
                    self.current = Some(s);
                    plan
                } else {
                    self.current = Some(s);
                    StopPlan::none()
                }
            },
            None => StopPlan::none(),
        }
    }

    /// Ends a stopping session once the grace period is over. Each flag says
    /// whether that activity has exited; a cancelling activity that has not is
    /// marked aborted, for the caller to abort. The session is then gone and a
    /// new one may start. Returns the ended session, in which no activity is
    /// left running or waiting. Without a stopping session, nothing changes.
    pub fn settle(&mut self, download_exited: bool, playback_exited: bool, volume_exited: bool) -> (r:
        Option<StreamState<V>>)
        requires
            old(self).wf(),
        ensures
            final(self).wf(),
            final(self).spec_threshold() == old(self).spec_threshold(),
            !old(self).in_phase(Phase::Stopping) ==> r is None && final(self).session() == old(self).session(),
            old(self).in_phase(Phase::Stopping) ==> {
                &&& r == Some(
                    old(self).session()->0.settled(download_exited, playback_exited, volume_exited),
                )
                &&& final(self).session() is None
            },
            r matches Some(s) ==> s.all_finished(),
    {
        let cur = self.current.take();
        match cur {
            Some(mut s) => {
                if let Phase::Stopping = s.phase {
                    s.download.settle(download_exited);
                    s.playback.settle(playback_exited);
                    s.volume_worker.settle(volume_exited);
                    Some(s)
                } else {
                    self.current = Some(s);
                    None
                }
            },
            None => None,
        }
    }

    /// Stopping is idempotent: on the session that a stop leaves, a second
    /// stop changes nothing and fires no signal.
    pub proof fn lemma_stop_idempotent(m: Self, again: Self)
        requires
            m.wf(),
            again.session() == m.stopped_session(),
        ensures
            again.stopped_session() == again.session(),
            again.stop_plan() == StopPlan::nothing(),
    {
    }
}

} // verus!
