//! A pollable watch for USB device arrival and removal.
//!
//! The operating system keeps two queues of notifications, one of services
//! that newly matched and one of services about to terminate, and calls back
//! whenever either gains an entry. This library holds the rules that turn the
//! two queues into a stream of [`HotplugEvent`]s: which queue is looked at
//! first, how far each is drained in one poll, what a failed probe does, and
//! when the poller's waker is armed and fired.
//!
//! The rules are two small machines, [`SetupStage`] for setting a watch up
//! and [`Stage`] for one poll. Each names the next thing to do and takes the
//! answer; whoever talks to the operating system carries the commands out.
//! [`MacHotplugWatch`] runs both machines over queues that it keeps in
//! memory, and `laws` states what follows for every run.

pub mod event;
pub mod laws;
pub mod model;
pub mod protocol;
pub mod queue;
pub mod setup;
pub mod waker;
pub mod watch;

pub use event::{DeviceId, DeviceInfo, HotplugEvent, Readiness};
pub use protocol::{Command, Reply, Stage, Taken, Unexpected};
pub use queue::NotificationQueue;
pub use setup::{
    check_criteria, check_registration, Error, SetupCommand, SetupReply, SetupStage,
    REGISTRATION_SUCCESS,
};
pub use waker::{callback, Inner};
pub use watch::MacHotplugWatch;
