use vstd::prelude::*;

verus! {

/// What the volume worker's wait gave.
#[derive(Debug, PartialEq)]
pub enum VolumeEvent<V> {
    /// A new volume level.
    Level(V),
    /// Levels were sent that the worker did not see; newer ones follow.
    Missed,
    /// The worker's cancellation signal fired.
    Cancelled,
}

/// What the volume worker does after an event.
#[derive(Debug, PartialEq)]
pub enum VolumeAction<V> {
    /// Set the sink's volume to this level.
    Apply(V),
    /// Nothing to do: wait again.
    Ignore,
    /// Leave the loop.
    Exit,
}

/// The volume that the sink ends with when a worker that has applied
/// `applied` receives `events` in turn: the last level before a cancellation,
/// or `applied` when there is none.
pub open spec fn latest<V>(applied: V, events: Seq<VolumeEvent<V>>) -> V
    decreases events.len(),
{
    if events.len() == 0 {
        applied
    } else {
        match events[0] {
            VolumeEvent::Level(v) => latest(v, events.skip(1)),
            VolumeEvent::Missed => latest(applied, events.skip(1)),
            VolumeEvent::Cancelled => applied,
        }
    }
}

pub open spec fn no_cancel<V>(events: Seq<VolumeEvent<V>>) -> bool {
    forall|i: int| 0 <= i < events.len() ==> !(#[trigger] events[i] is Cancelled)
}

/// The decisions of the volume worker, which applies incoming levels to the
/// live sink until it is cancelled.
pub struct VolumeWorker<V> {
    applied: V,
    done: bool,
}

impl<V: Copy> VolumeWorker<V> {
    /// The level last applied to the sink.
    pub closed spec fn spec_applied(self) -> V {
        self.applied
    }

    /// Whether the worker has left its loop.
    pub closed spec fn spec_done(self) -> bool {
        self.done
    }

    /// A worker whose sink was set to `initial`.
    pub fn new(initial: V) -> (w: Self)
        ensures
            w.spec_applied() == initial,
            !w.spec_done(),
    {
        VolumeWorker { applied: initial, done: false }
    }

    pub fn applied(&self) -> (v: V)
        ensures
            v == self.spec_applied(),
    {
        self.applied
    }

    pub fn is_done(&self) -> (r: bool)
        ensures
            r == self.spec_done(),
    {
        self.done
    }

    /// One event: a level is applied as it comes, with no check of its range
    /// beyond the sink's; a cancellation ends the loop. A worker that has left
    /// its loop does nothing more.
    pub fn handle(&mut self, event: VolumeEvent<V>) -> (a: VolumeAction<V>)
        ensures
            old(self).spec_done() ==> a is Exit && *final(self) == *old(self),
            !old(self).spec_done() ==> match event {
                VolumeEvent::Level(v) => a == VolumeAction::Apply(v) && final(self).spec_applied()
                    == v && !final(self).spec_done(),
                VolumeEvent::Missed => a is Ignore && *final(self) == *old(self),
                VolumeEvent::Cancelled => a is Exit && final(self).spec_applied()
                    == old(self).spec_applied() && final(self).spec_done(),
            },
    {
        if self.done {
            return VolumeAction::Exit;
        }
        match event {
            VolumeEvent::Level(v) => {
                self.applied = v;
                VolumeAction::Apply(v)
            },
            VolumeEvent::Missed => VolumeAction::Ignore,
            VolumeEvent::Cancelled => {
                self.done = true;
                VolumeAction::Exit
            },
        }
    }
}

/// Handling one more event moves the applied level as `latest` says, as long
/// as no earlier event cancelled the worker.
pub proof fn lemma_latest_extends<V>(applied: V, events: Seq<VolumeEvent<V>>, e: VolumeEvent<V>)
    requires
        no_cancel(events),
    ensures
        latest(applied, events.push(e)) == match e {
            VolumeEvent::Level(v) => v,
            _ => latest(applied, events),
        },
    decreases events.len(),
{
    if events.len() == 0 {
        let one = events.push(e);
        assert(one.skip(1) =~= Seq::<VolumeEvent<V>>::empty());
        assert(one[0] == e);
        match e {
            VolumeEvent::Level(v) => assert(latest(v, one.skip(1)) == v),
            _ => assert(latest(applied, one.skip(1)) == applied),
        }
    } else {
        let rest = events.skip(1);
        assert(events.push(e)[0] == events[0]);
        assert(events.push(e).skip(1) =~= rest.push(e));
        assert(no_cancel(rest)) by {
            assert forall|i: int| 0 <= i < rest.len() implies !(#[trigger] rest[i] is Cancelled) by {
                assert(rest[i] == events[i + 1]);
            }
        }
        assert(!(events[0] is Cancelled));
        match events[0] {
            VolumeEvent::Level(v) => lemma_latest_extends(v, rest, e),
            _ => lemma_latest_extends(applied, rest, e),
        }
    }
}

/// Latest value wins: once level `v` has been received, and after it only
/// missed levels were reported, the sink ends at `v`, whatever came before and
/// whichever earlier levels were missed.
pub proof fn lemma_latest_value_wins<V>(
    applied: V,
    before: Seq<VolumeEvent<V>>,
    v: V,
    after: Seq<VolumeEvent<V>>,
)
    requires
        no_cancel(before),
        forall|i: int| 0 <= i < after.len() ==> #[trigger] after[i] is Missed,
    ensures
        latest(applied, before.push(VolumeEvent::Level(v)) + after) == v,
    decreases after.len(),
{
    if after.len() == 0 {
        assert(before.push(VolumeEvent::Level(v)) + after =~= before.push(VolumeEvent::Level(v)));
        lemma_latest_extends(applied, before, VolumeEvent::Level(v));
    } else {
        let last = after[after.len() - 1];
        let init = after.take(after.len() - 1);
        let prefix = before.push(VolumeEvent::Level(v)) + init;
        assert(before.push(VolumeEvent::Level(v)) + after =~= prefix.push(last));
        assert(no_cancel(prefix)) by {
            assert forall|i: int| 0 <= i < prefix.len() implies !(#[trigger] prefix[i] is Cancelled) by {
                if i < before.len() {
                    assert(prefix[i] == before[i]);
                } else if i > before.len() {
                    assert(prefix[i] == after[i - before.len() - 1]);
                }
            }
        }
        assert forall|i: int| 0 <= i < init.len() implies #[trigger] init[i] is Missed by {
            assert(init[i] == after[i]);
        }
        lemma_latest_value_wins(applied, before, v, init);
        lemma_latest_extends(applied, prefix, last);
    }
}

} // verus!
