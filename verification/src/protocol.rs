use vstd::prelude::*;
use crate::event::{DeviceId, DeviceInfo, HotplugEvent, Readiness};

verus! {

/// What taking one entry off a notification queue gave.
#[derive(Debug)]
pub enum Taken<T> {
    /// The queue held no entry.
    Empty,
    /// An entry was taken, but nothing could be learnt of its service.
    Failed,
    /// An entry was taken and its service gave this.
    Got(T),
}

/// How far one poll has come.
#[derive(Clone, Copy, Debug, PartialEq, Eq, Structural)]
pub enum Stage {
    /// The waker of the polling task is being armed, before either queue is
    /// looked at: a notification that is queued from then on either is seen
    /// by this poll or wakes the task.
    Arming,
    /// The arrival queue is being drained.
    Arrivals,
    /// The arrival queue was found empty; the termination queue is next.
    Terminations,
    /// The poll is over, with this result.
    Finished(Readiness),
}

/// What the poll needs done next.
#[derive(Clone, Copy, Debug, PartialEq, Eq, Structural)]
pub enum Command {
    /// Put the waker of the polling task in the slot that the notification
    /// callback fires, in place of any waker that is there.
    RegisterWaker,
    /// Take the next entry of the arrival queue and probe its service.
    TakeArrival,
    /// Take the next entry of the termination queue and read its registry
    /// identifier.
    TakeTermination,
    /// Hand this result to the poller.
    Return(Readiness),
}

/// The answer to a [`Command`].
#[derive(Debug)]
pub enum Reply {
    /// The waker is in the slot.
    WakerRegistered,
    Arrival(Taken<DeviceInfo>),
    Termination(Taken<u64>),
}

/// A reply that does not answer the command of the stage it was given to.
#[derive(Clone, Copy, Debug, PartialEq, Eq, Structural)]
pub struct Unexpected;

impl Stage {
    /// The stage in which every poll begins.
    pub fn start() -> (s: Stage)
        ensures
            s == Stage::Arming,
    {
        Stage::Arming
    }

    pub open spec fn command_of(self) -> Command {
        match self {
            Stage::Arming => Command::RegisterWaker,
            Stage::Arrivals => Command::TakeArrival,
            Stage::Terminations => Command::TakeTermination,
            Stage::Finished(r) => Command::Return(r),
        }
    }

    /// Whether `reply` answers the command of this stage.
    pub open spec fn expects(self, reply: Reply) -> bool {
        match (self, reply) {
            (Stage::Arming, Reply::WakerRegistered) => true,
            (Stage::Arrivals, Reply::Arrival(_)) => true,
            (Stage::Terminations, Reply::Termination(_)) => true,
            _ => false,
        }
    }

    /// The stage that follows this one on a reply that it expects.
    ///
    /// Once the waker is armed the arrival queue is drained.
    /// A failed arrival is passed over and the queue is asked again; the
    /// first probed arrival ends the poll. The termination queue is asked
    /// once: whatever it gives ends the poll.
    pub open spec fn after(self, reply: Reply) -> Stage {
        match (self, reply) {
            (Stage::Arming, Reply::WakerRegistered) => Stage::Arrivals,
            (Stage::Arrivals, Reply::Arrival(Taken::Got(info))) => Stage::Finished(
                Readiness::Ready(HotplugEvent::Connected(info)),
            ),
            (Stage::Arrivals, Reply::Arrival(Taken::Failed)) => Stage::Arrivals,
            (Stage::Arrivals, Reply::Arrival(Taken::Empty)) => Stage::Terminations,
            (Stage::Terminations, Reply::Termination(Taken::Got(id))) => Stage::Finished(
                Readiness::Ready(HotplugEvent::Disconnected(DeviceId(id))),
            ),
            (Stage::Terminations, Reply::Termination(_)) => Stage::Finished(Readiness::Pending),
            _ => self,
        }
    }

    /// How many stages a poll in this stage may still pass through without
    /// taking an arrival.
    pub open spec fn stages_left(self) -> nat {
        match self {
            Stage::Arming => 3,
            Stage::Arrivals => 2,
            Stage::Terminations => 1,
            Stage::Finished(_) => 0,
        }
    }

    /// What has to be done next in this stage.
    pub fn command(&self) -> (c: Command)
        ensures
            c == self.command_of(),
    {
        match *self {
            Stage::Arming => Command::RegisterWaker,
            Stage::Arrivals => Command::TakeArrival,
            Stage::Terminations => Command::TakeTermination,
            Stage::Finished(r) => Command::Return(r),
        }
    }

    /// Moves on by one reply. A reply that this stage does not expect is
    /// refused and changes nothing.
    pub fn step(self, reply: Reply) -> (next: Result<Stage, Unexpected>)
        ensures
            self.expects(reply) ==> next == Ok::<Stage, Unexpected>(self.after(reply)),
            !self.expects(reply) ==> next == Err::<Stage, Unexpected>(Unexpected),
    {
        match self {
            Stage::Arming => match reply {
                Reply::WakerRegistered => Ok(Stage::Arrivals),
                _ => Err(Unexpected),
            },
            Stage::Arrivals => match reply {
                Reply::Arrival(Taken::Got(info)) => Ok(
                    Stage::Finished(Readiness::Ready(HotplugEvent::Connected(info))),
                ),
                Reply::Arrival(Taken::Failed) => Ok(Stage::Arrivals),
                Reply::Arrival(Taken::Empty) => Ok(Stage::Terminations),
                _ => Err(Unexpected),
            },
            Stage::Terminations => match reply {
                Reply::Termination(Taken::Got(id)) => Ok(
                    Stage::Finished(Readiness::Ready(HotplugEvent::Disconnected(DeviceId(id)))),
                ),
                Reply::Termination(_) => Ok(Stage::Finished(Readiness::Pending)),
                _ => Err(Unexpected),
            },
            Stage::Finished(_) => Err(Unexpected),
        }
    }
}

} // verus!
