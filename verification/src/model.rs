use vstd::prelude::*;
use crate::event::{DeviceId, DeviceInfo, HotplugEvent, Readiness};

verus! {

/// The number of failed entries at the head of `pending`: the entries that a
/// drain passes over before it meets one that succeeded, or the end.
pub open spec fn leading_failures<T>(pending: Seq<Option<T>>) -> nat
    decreases pending.len(),
{
    if pending.len() == 0 || pending[0].is_some() {
        0
    } else {
        1 + leading_failures(pending.skip(1))
    }
}

/// `leading_failures` is the one position before which every entry failed
/// and at which the sequence ends or an entry succeeded.
pub proof fn lemma_leading_failures<T>(pending: Seq<Option<T>>)
    ensures
        leading_failures(pending) <= pending.len(),
        forall|j: int| 0 <= j < leading_failures(pending) ==> (#[trigger] pending[j]).is_none(),
        leading_failures(pending) < pending.len() ==> pending[
            leading_failures(pending) as int
        ].is_some(),
    decreases pending.len(),
{
    if pending.len() == 0 || pending[0].is_some() {
    } else {
        let rest = pending.skip(1);
        lemma_leading_failures(rest);
        assert forall|j: int| 0 <= j < leading_failures(pending) implies (#[trigger] pending[
            j
        ]).is_none() by {
            if j > 0 {
                assert(rest[j - 1] == pending[j]);
            }
        }
        if leading_failures(pending) < pending.len() {
            assert(rest[leading_failures(rest) as int] == pending[leading_failures(pending) as int]);
        }
    }
}

/// A position with only failures before it, at which the sequence ends or an
/// entry succeeded, is `leading_failures`.
pub proof fn lemma_leading_failures_is<T>(pending: Seq<Option<T>>, n: int)
    requires
        0 <= n <= pending.len(),
        forall|j: int| 0 <= j < n ==> (#[trigger] pending[j]).is_none(),
        n < pending.len() ==> pending[n].is_some(),
    ensures
        leading_failures(pending) == n,
{
    lemma_leading_failures(pending);
    let k = leading_failures(pending) as int;
    if k < n {
        assert(pending[k].is_none());
    } else if n < k {
        assert(pending[n].is_none());
    }
}

/// The watch as the rules see it: every notification that either queue was
/// ever given, in order, and how many of each have been taken off.
pub struct WatchModel {
    /// The arrival queue: for each entry, what probing its service gives.
    pub arrivals: Seq<Option<DeviceInfo>>,
    pub arrivals_taken: nat,
    /// The termination queue: for each entry, what reading its registry
    /// identifier gives.
    pub terminations: Seq<Option<u64>>,
    pub terminations_taken: nat,
}

/// The queue entry that an event was made from, by its place in its queue.
pub enum Source {
    Arrival(nat),
    Termination(nat),
}

/// One thing that happens to a watch.
pub enum Happening {
    /// An arrival is queued; probing its service will give this.
    Arrives(Option<DeviceInfo>),
    /// A termination is queued; reading its identifier will give this.
    Terminates(Option<u64>),
    /// The watch is polled.
    Polls,
}

impl WatchModel {
    pub open spec fn wf(self) -> bool {
        &&& self.arrivals_taken <= self.arrivals.len()
        &&& self.terminations_taken <= self.terminations.len()
    }

    /// The arrivals that no poll has taken yet.
    pub open spec fn pending_arrivals(self) -> Seq<Option<DeviceInfo>> {
        self.arrivals.skip(self.arrivals_taken as int)
    }

    /// The terminations that no poll has taken yet.
    pub open spec fn pending_terminations(self) -> Seq<Option<u64>> {
        self.terminations.skip(self.terminations_taken as int)
    }

    /// A watch right after registration: the arrival queue holds one entry
    /// for each device that was connected already, and all of them have been
    /// taken off and dropped.
    pub open spec fn started(backlog: Seq<Option<DeviceInfo>>) -> WatchModel {
        WatchModel {
            arrivals: backlog,
            arrivals_taken: backlog.len(),
            terminations: Seq::empty(),
            terminations_taken: 0,
        }
    }

    /// The operating system queues an arrival.
    pub open spec fn arrive(self, probe: Option<DeviceInfo>) -> WatchModel {
        WatchModel { arrivals: self.arrivals.push(probe), ..self }
    }

    /// The operating system queues a termination.
    pub open spec fn terminate(self, registry_id: Option<u64>) -> WatchModel {
        WatchModel { terminations: self.terminations.push(registry_id), ..self }
    }

    /// Whether a poll gets as far as the termination queue and finds an
    /// entry there.
    pub open spec fn takes_termination(self) -> bool {
        &&& leading_failures(self.pending_arrivals()) == self.pending_arrivals().len()
        &&& self.pending_terminations().len() > 0
    }

    /// The watch after one poll. Arrivals are taken up to and including the
    /// first that was probed, or all of them; only then, and only if none
    /// was probed, one termination is taken.
    pub open spec fn polled(self) -> WatchModel {
        let failures = leading_failures(self.pending_arrivals());
        if failures < self.pending_arrivals().len() {
            WatchModel { arrivals_taken: self.arrivals_taken + failures + 1, ..self }
        } else if self.pending_terminations().len() > 0 {
            WatchModel {
                arrivals_taken: self.arrivals_taken + failures,
                terminations_taken: self.terminations_taken + 1,
                ..self
            }
        } else {
            WatchModel { arrivals_taken: self.arrivals_taken + failures, ..self }
        }
    }

    /// The watch after `h`.
    pub open spec fn on(self, h: Happening) -> WatchModel {
        match h {
            Happening::Arrives(probe) => self.arrive(probe),
            Happening::Terminates(registry_id) => self.terminate(registry_id),
            Happening::Polls => self.polled(),
        }
    }

    /// The watch after all of `hs`, in order.
    pub open spec fn after_all(self, hs: Seq<Happening>) -> WatchModel
        decreases hs.len(),
    {
        if hs.len() == 0 {
            self
        } else {
            self.on(hs[0]).after_all(hs.skip(1))
        }
    }

    /// What one poll returns.
    pub open spec fn poll_result(self) -> Readiness {
        let failures = leading_failures(self.pending_arrivals());
        if failures < self.pending_arrivals().len() {
            Readiness::Ready(
                HotplugEvent::Connected(self.pending_arrivals()[failures as int].unwrap()),
            )
        } else if self.pending_terminations().len() > 0 {
            match self.pending_terminations()[0] {
                Some(id) => Readiness::Ready(HotplugEvent::Disconnected(DeviceId(id))),
                None => Readiness::Pending,
            }
        } else {
            Readiness::Pending
        }
    }

    /// The queue entry that the event of one poll is made from, where the
    /// poll returns an event.
    pub open spec fn poll_source(self) -> Option<Source> {
        let failures = leading_failures(self.pending_arrivals());
        if failures < self.pending_arrivals().len() {
            Some(Source::Arrival(self.arrivals_taken + failures))
        } else if self.pending_terminations().len() > 0 && self.pending_terminations()[0].is_some() {
            Some(Source::Termination(self.terminations_taken))
        } else {
            None
        }
    }
}

} // verus!
