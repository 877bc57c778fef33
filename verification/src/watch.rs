use vstd::prelude::*;
use core::task::Context;
use crate::event::{DeviceInfo, Readiness};
use crate::model::{lemma_leading_failures_is, leading_failures, WatchModel};
use crate::protocol::{Command, Reply, Stage};
use crate::queue::NotificationQueue;
use crate::setup::{registered, Error, SetupCommand, SetupReply, SetupStage};
use crate::waker::{callback, Inner};

verus! {

/// The hotplug watch: the two notification queues and the waker slot that
/// the notification callback fires.
pub struct MacHotplugWatch {
    inner: Inner,
    terminated_iter: NotificationQueue<u64>,
    matched_iter: NotificationQueue<DeviceInfo>,
}

/// What holds between the watch when a poll began (`start`), the watch now
/// and the stage that the poll is in.
pub open spec fn poll_in_progress(start: WatchModel, now: WatchModel, stage: Stage) -> bool {
    &&& now.wf()
    &&& now.arrivals == start.arrivals
    &&& now.terminations == start.terminations
    &&& match stage {
        Stage::Arming => now == start,
        Stage::Arrivals => {
            &&& start.arrivals_taken <= now.arrivals_taken
            &&& now.terminations_taken == start.terminations_taken
            &&& forall|j: int|
                start.arrivals_taken <= j < now.arrivals_taken ==> (#[trigger] start.arrivals[
                    j
                ]).is_none()
        },
        Stage::Terminations => {
            &&& now.arrivals_taken == start.arrivals.len()
            &&& now.terminations_taken == start.terminations_taken
            &&& leading_failures(start.pending_arrivals()) == start.pending_arrivals().len()
        },
        Stage::Finished(r) => now == start.polled() && r == start.poll_result(),
    }
}

/// What holds while a watch is set up in `stage`: which of the checks were
/// passed, and whether the arrival queue was drained.
pub open spec fn setup_in_progress(
    criteria_obtained: bool,
    registered: bool,
    drained: bool,
    stage: SetupStage,
) -> bool {
    match stage {
        SetupStage::Matching => true,
        SetupStage::Registering => criteria_obtained,
        SetupStage::Destroying => criteria_obtained && !registered,
        SetupStage::Draining => criteria_obtained && registered,
        SetupStage::Joining => criteria_obtained && registered && drained,
        SetupStage::Ready => criteria_obtained && registered && drained,
        SetupStage::Failed(e) => if criteria_obtained {
            !registered && e == Error::RegistrationFailed
        } else {
            e == Error::MatchingFailed
        },
    }
}

impl View for MacHotplugWatch {
    type V = WatchModel;

    closed spec fn view(&self) -> WatchModel {
        WatchModel {
            arrivals: self.matched_iter.history(),
            arrivals_taken: self.matched_iter.taken(),
            terminations: self.terminated_iter.history(),
            terminations_taken: self.terminated_iter.taken(),
        }
    }
}

impl MacHotplugWatch {
    /// The waker slot that this watch arms at each poll.
    pub closed spec fn slot(&self) -> Inner {
        self.inner
    }

    /// The watch never counts more entries as taken than its queues were
    /// given.
    pub proof fn lemma_view_wf(&self)
        ensures
            self@.wf(),
    {
        self.matched_iter.lemma_taken_in_range();
        self.terminated_iter.lemma_taken_in_range();
    }

    /// Sets the watch up from what registration gave: whether matching
    /// criteria were obtained, the statuses of the registrations for
    /// terminations and for first matches, and the arrival queue as the
    /// operating system filled it, with one entry for each device that was
    /// connected already.
    ///
    /// Those entries are taken off and dropped: the watch reports what
    /// changes from now on, not what is there.
    pub fn new(
        criteria_obtained: bool,
        terminated_status: i32,
        matched_status: i32,
        connected: Vec<Option<DeviceInfo>>,
    ) -> (r: Result<MacHotplugWatch, Error>)
        ensures
            !criteria_obtained ==> (r matches Err(e) && e == Error::MatchingFailed),
            criteria_obtained && !registered(terminated_status, matched_status) ==> (r matches Err(
                e,
            ) && e == Error::RegistrationFailed),
            criteria_obtained && registered(terminated_status, matched_status) ==> (r matches Ok(w)
                && w@ == WatchModel::started(connected@)),
    {
        let inner = Inner::new();
        let terminated_iter = NotificationQueue::new();
        let mut matched_iter = NotificationQueue::holding(connected);
        let mut stage = SetupStage::start();
        loop
            invariant
                terminated_iter.history() == Seq::<Option<u64>>::empty(),
                terminated_iter.taken() == 0,
                matched_iter.history() == connected@,
                setup_in_progress(
                    criteria_obtained,
                    registered(terminated_status, matched_status),
                    matched_iter.taken() == connected@.len(),
                    stage,
                ),
            decreases stage.commands_left(),
        {
            let reply = match stage.command() {
                SetupCommand::BuildCriteria => SetupReply::Criteria(criteria_obtained),
                SetupCommand::Register => SetupReply::Registered(terminated_status, matched_status),
                SetupCommand::DrainArrivals => {
                    let _ = matched_iter.drain();
                    SetupReply::Done
                },
                SetupCommand::DestroyPort | SetupCommand::AddEventSource => SetupReply::Done,
                SetupCommand::Succeed => {
                    return Ok(MacHotplugWatch { inner, terminated_iter, matched_iter });
                },
                SetupCommand::Fail(e) => {
                    return Err(e);
                },
            };
            match stage.step(reply) {
                Ok(next) => {
                    stage = next;
                },
                // Not reached: each reply above answers the command it was made for.
                Err(_) => {
                    return Err(Error::RegistrationFailed);
                },
            }
        }
    }

    /// The state that the notification callback is given: the watch's own
    /// slot, not a copy and not another.
    pub fn inner(&self) -> (inner: &Inner)
        ensures
            *inner == self.slot(),
    {
        &self.inner
    }

    /// The operating system queues the arrival of a service and calls back.
    /// `probe` is what probing that service will give.
    pub fn notify_arrival(&mut self, probe: Option<DeviceInfo>)
        ensures
            final(self)@ == old(self)@.arrive(probe),
    {
        self.matched_iter.enqueue(probe);
        callback(&self.inner);
    }

    /// The operating system queues the termination of a service and calls
    /// back. `registry_id` is what reading the identifier of that service
    /// will give.
    pub fn notify_termination(&mut self, registry_id: Option<u64>)
        ensures
            final(self)@ == old(self)@.terminate(registry_id),
    {
        self.terminated_iter.enqueue(registry_id);
        callback(&self.inner);
    }

    /// One poll. The waker of the polling task is armed first, in place of
    /// any armed before. Then arrivals are taken until one was probed, which
    /// is returned as connected; failed ones are passed over. If the arrival
    /// queue ran empty, one termination is taken: with its identifier it is
    /// returned as disconnected, without it the poll is pending. With both
    /// queues empty the poll is pending.
    pub fn poll_next(&mut self, cx: &mut Context<'_>) -> (r: Readiness)
        ensures
            final(self)@ == old(self)@.polled(),
            r == old(self)@.poll_result(),
    {
        let ghost start = self@;
        proof {
            self.lemma_view_wf();
        }
        let mut stage = Stage::start();
        loop
            invariant
                start.wf(),
                start == old(self)@,
                poll_in_progress(start, self@, stage),
            decreases self@.arrivals.len() - self@.arrivals_taken, stage.stages_left(),
        {
            let ghost before = self@;
            let reply = match stage.command() {
                Command::RegisterWaker => {
                    self.inner.register(cx);
                    Reply::WakerRegistered
                },
                Command::TakeArrival => Reply::Arrival(self.matched_iter.take()),
                Command::TakeTermination => Reply::Termination(self.terminated_iter.take()),
                Command::Return(r) => {
                    return r;
                },
            };
            proof {
                self.lemma_view_wf();
                let n = before.arrivals_taken - start.arrivals_taken;
                let pending = start.pending_arrivals();
                if stage == Stage::Arrivals {
                    assert forall|j: int| 0 <= j < n implies (#[trigger] pending[j]).is_none() by {
                        assert(pending[j] == start.arrivals[start.arrivals_taken + j]);
                    }
                    if before.pending_arrivals().len() > 0 {
                        assert(before.pending_arrivals()[0] == pending[n]);
                        if pending[n].is_some() {
                            lemma_leading_failures_is(pending, n);
                        }
                    } else {
                        lemma_leading_failures_is(pending, n);
                    }
                }
            }
            match stage.step(reply) {
                Ok(next) => {
                    stage = next;
                },
                // Not reached: each reply above answers the command it was made for.
                Err(_) => {
                    return Readiness::Pending;
                },
            }
        }
    }

    /// How many arrivals and how many terminations no poll has taken yet.
    pub fn pending(&self) -> (n: (usize, usize))
        ensures
            n.0 == self@.pending_arrivals().len(),
            n.1 == self@.pending_terminations().len(),
    {
        (self.matched_iter.pending_len(), self.terminated_iter.pending_len())
    }
}

} // verus!
