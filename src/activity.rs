use vstd::prelude::*;

verus! {

/// Where one background activity of a session stands.
#[derive(Clone, Copy, Debug, PartialEq, Eq, Structural)]
pub enum ActivityState {
    /// Never launched.
    NotStarted,
    /// Launched and not yet asked to stop.
    Running,
    /// Its cancellation signal has fired; it may not have exited yet.
    Cancelling,
    /// It ended by itself, or after its signal fired.
    Exited,
    /// It did not exit within the grace period and was aborted.
    Aborted,
}

/// A fire-once cancellation signal.
#[derive(Clone, Copy, Debug, PartialEq, Eq, Structural)]
pub struct CancelSignal {
    pub fired: bool,
}

impl CancelSignal {
    /// A signal that has not fired.
    pub fn new() -> (s: Self)
        ensures
            !s.fired,
    {
        CancelSignal { fired: false }
    }

    /// Fires the signal. Returns whether this call fired it: a signal that has
    /// already fired does not fire again.
    pub fn fire(&mut self) -> (fired_now: bool)
        ensures
            final(self).fired,
            fired_now == !old(self).fired,
    {
        let fired_now = !self.fired;
        self.fired = true;
        fired_now
    }
}

/// One background activity of a session, with its own cancellation signal.
#[derive(Clone, Copy, Debug, PartialEq, Eq, Structural)]
pub struct Activity {
    pub state: ActivityState,
    pub signal: CancelSignal,
}

impl Activity {
    /// Never launched, and its signal has not fired.
    pub open spec fn idle() -> Activity {
        Activity { state: ActivityState::NotStarted, signal: CancelSignal { fired: false } }
    }

    /// Neither running nor waiting to exit.
    pub open spec fn is_finished(self) -> bool {
        self.state is NotStarted || self.state is Exited || self.state is Aborted
    }

    pub open spec fn with_state(self, state: ActivityState) -> Activity {
        Activity { state, ..self }
    }

    /// Once its signal has fired: a running activity is then cancelling.
    pub open spec fn halted(self) -> Activity {
        Activity {
            state: if self.state is Running {
                ActivityState::Cancelling
            } else {
                self.state
            },
            signal: CancelSignal { fired: true },
        }
    }

    /// Once the grace period is over: a cancelling activity has exited, or it
    /// is aborted.
    pub open spec fn settled(self, exited: bool) -> Activity {
        if self.state is Cancelling {
            self.with_state(
                if exited {
                    ActivityState::Exited
                } else {
                    ActivityState::Aborted
                },
            )
        } else {
            self
        }
    }

    pub fn new() -> (a: Self)
        ensures
            a == Activity::idle(),
    {
        Activity { state: ActivityState::NotStarted, signal: CancelSignal::new() }
    }

    /// Fires the signal unless it has fired. Returns whether this call fired
    /// it.
    pub fn halt(&mut self) -> (fired_now: bool)
        ensures
            *final(self) == old(self).halted(),
            fired_now == !old(self).signal.fired,
    {
        if let ActivityState::Running = self.state {
            self.state = ActivityState::Cancelling;
        }
        self.signal.fire()
    }

    /// Records whether a cancelling activity exited within the grace period.
    pub fn settle(&mut self, exited: bool)
        ensures
            *final(self) == old(self).settled(exited),
    {
        if let ActivityState::Cancelling = self.state {
            self.state = if exited {
                ActivityState::Exited
            } else {
                ActivityState::Aborted
            };
        }
    }
}

/// The cancellation signals that a call has just fired, which the caller
/// passes on to the activities.
#[derive(Clone, Copy, Debug, PartialEq, Eq, Structural)]
pub struct StopPlan {
    pub download: bool,
    pub playback: bool,
    pub volume: bool,
}

impl StopPlan {
    pub open spec fn nothing() -> StopPlan {
        StopPlan { download: false, playback: false, volume: false }
    }

    /// Fires no signal.
    pub fn none() -> (p: Self)
        ensures
            p == StopPlan::nothing(),
    {
        StopPlan { download: false, playback: false, volume: false }
    }
}

} // verus!
