use vstd::prelude::*;
use crate::protocol::Unexpected;

verus! {

/// The status with which a registration of matching criteria succeeds.
pub const REGISTRATION_SUCCESS: i32 = 0;

/// Why a watch could not be set up. Neither is worth a retry.
#[derive(Clone, Copy, Debug, PartialEq, Eq, Structural)]
pub enum Error {
    /// The operating system gave no matching criteria for USB devices.
    MatchingFailed,
    /// One of the two registrations ended with a status other than success.
    RegistrationFailed,
}

/// The text that goes with each error.
pub open spec fn message_of(e: Error) -> Seq<char> {
    match e {
        Error::MatchingFailed => "IOServiceMatching failed"@,
        Error::RegistrationFailed => "Failed to register notification"@,
    }
}

impl Error {
    /// A short text for the log or the caller.
    pub fn message(&self) -> (text: &'static str)
        ensures
            text@ == message_of(*self),
    {
        match *self {
            Error::MatchingFailed => "IOServiceMatching failed",
            Error::RegistrationFailed => "Failed to register notification",
        }
    }
}

/// Tests whether matching criteria were obtained.
pub fn check_criteria(obtained: bool) -> (r: Result<(), Error>)
    ensures
        obtained ==> r == Ok::<(), Error>(()),
        !obtained ==> r == Err::<(), Error>(Error::MatchingFailed),
{
    if obtained {
        Ok(())
    } else {
        Err(Error::MatchingFailed)
    }
}

/// Whether both registrations succeeded.
pub open spec fn registered(terminated_status: i32, matched_status: i32) -> bool {
    terminated_status == REGISTRATION_SUCCESS && matched_status == REGISTRATION_SUCCESS
}

/// Tests the statuses of the two registrations, for terminations and for
/// first matches. Both must have succeeded: on an error the caller destroys
/// the notification port and keeps nothing.
pub fn check_registration(terminated_status: i32, matched_status: i32) -> (r: Result<(), Error>)
    ensures
        registered(terminated_status, matched_status) ==> r == Ok::<(), Error>(()),
        !registered(terminated_status, matched_status) ==> r == Err::<(), Error>(
            Error::RegistrationFailed,
        ),
{
    if terminated_status != REGISTRATION_SUCCESS || matched_status != REGISTRATION_SUCCESS {
        Err(Error::RegistrationFailed)
    } else {
        Ok(())
    }
}

/// How far setting a watch up has come.
#[derive(Clone, Copy, Debug, PartialEq, Eq, Structural)]
pub enum SetupStage {
    /// Matching criteria are being obtained.
    Matching,
    /// The port is being opened and the criteria registered on it, once for
    /// terminations and once for first matches.
    Registering,
    /// A registration failed: the port is being destroyed.
    Destroying,
    /// The arrivals that registration reported are being dropped.
    Draining,
    /// The port's source is being added to the event loop.
    Joining,
    /// The watch is ready.
    Ready,
    /// No watch was made, and nothing is left of the attempt.
    Failed(Error),
}

/// What setting up needs done next.
#[derive(Clone, Copy, Debug, PartialEq, Eq, Structural)]
pub enum SetupCommand {
    /// Obtain criteria that match any USB device.
    BuildCriteria,
    /// Open a notification port, allocate the state shared with the
    /// callback, and register the criteria for both classes of notification.
    Register,
    /// Destroy the notification port.
    DestroyPort,
    /// Take every entry off the arrival queue and drop it.
    DrainArrivals,
    /// Add the port's source to the event loop and keep the registration.
    AddEventSource,
    /// Hand the watch out.
    Succeed,
    /// Hand this error out.
    Fail(Error),
}

/// The answer to a [`SetupCommand`].
#[derive(Clone, Copy, Debug, PartialEq, Eq, Structural)]
pub enum SetupReply {
    /// Whether criteria were obtained.
    Criteria(bool),
    /// The statuses of the registration for terminations and of the one for
    /// first matches.
    Registered(i32, i32),
    /// The command was carried out; there is nothing to report.
    Done,
}

impl SetupStage {
    /// The stage in which setting up begins.
    pub fn start() -> (s: SetupStage)
        ensures
            s == SetupStage::Matching,
    {
        SetupStage::Matching
    }

    pub open spec fn command_of(self) -> SetupCommand {
        match self {
            SetupStage::Matching => SetupCommand::BuildCriteria,
            SetupStage::Registering => SetupCommand::Register,
            SetupStage::Destroying => SetupCommand::DestroyPort,
            SetupStage::Draining => SetupCommand::DrainArrivals,
            SetupStage::Joining => SetupCommand::AddEventSource,
            SetupStage::Ready => SetupCommand::Succeed,
            SetupStage::Failed(e) => SetupCommand::Fail(e),
        }
    }

    /// Whether `reply` answers the command of this stage.
    pub open spec fn expects(self, reply: SetupReply) -> bool {
        match (self, reply) {
            (SetupStage::Matching, SetupReply::Criteria(_)) => true,
            (SetupStage::Registering, SetupReply::Registered(_, _)) => true,
            (SetupStage::Destroying, SetupReply::Done) => true,
            (SetupStage::Draining, SetupReply::Done) => true,
            (SetupStage::Joining, SetupReply::Done) => true,
            _ => false,
        }
    }

    /// The stage that follows this one on a reply that it expects.
    ///
    /// Without criteria nothing was opened and setting up fails at once. A
    /// failed registration has the port destroyed before the failure is
    /// handed out. The arrival queue is drained before the port's source
    /// joins the event loop.
    pub open spec fn after(self, reply: SetupReply) -> SetupStage {
        match (self, reply) {
            (SetupStage::Matching, SetupReply::Criteria(obtained)) => if obtained {
                SetupStage::Registering
            } else {
                SetupStage::Failed(Error::MatchingFailed)
            },
            (SetupStage::Registering, SetupReply::Registered(terminated, matched)) => if registered(
                terminated,
                matched,
            ) {
                SetupStage::Draining
            } else {
                SetupStage::Destroying
            },
            (SetupStage::Destroying, SetupReply::Done) => SetupStage::Failed(
                Error::RegistrationFailed,
            ),
            (SetupStage::Draining, SetupReply::Done) => SetupStage::Joining,
            (SetupStage::Joining, SetupReply::Done) => SetupStage::Ready,
            _ => self,
        }
    }

    /// How many commands are still to come from this stage on.
    pub open spec fn commands_left(self) -> nat {
        match self {
            SetupStage::Matching => 5,
            SetupStage::Registering => 4,
            SetupStage::Draining => 3,
            SetupStage::Destroying => 2,
            SetupStage::Joining => 2,
            SetupStage::Ready => 1,
            SetupStage::Failed(_) => 1,
        }
    }

    /// What has to be done next in this stage.
    pub fn command(&self) -> (c: SetupCommand)
        ensures
            c == self.command_of(),
    {
        match *self {
            SetupStage::Matching => SetupCommand::BuildCriteria,
            SetupStage::Registering => SetupCommand::Register,
            SetupStage::Destroying => SetupCommand::DestroyPort,
            SetupStage::Draining => SetupCommand::DrainArrivals,
            SetupStage::Joining => SetupCommand::AddEventSource,
            SetupStage::Ready => SetupCommand::Succeed,
            SetupStage::Failed(e) => SetupCommand::Fail(e),
        }
    }

    /// Moves on by one reply. A reply that this stage does not expect is
    /// refused and changes nothing.
    pub fn step(self, reply: SetupReply) -> (next: Result<SetupStage, Unexpected>)
        ensures
            self.expects(reply) ==> next == Ok::<SetupStage, Unexpected>(self.after(reply)),
            !self.expects(reply) ==> next == Err::<SetupStage, Unexpected>(Unexpected),
    {
        match self {
            SetupStage::Matching => match reply {
                SetupReply::Criteria(obtained) => match check_criteria(obtained) {
                    Ok(_) => Ok(SetupStage::Registering),
                    Err(e) => Ok(SetupStage::Failed(e)),
                },
                _ => Err(Unexpected),
            },
            SetupStage::Registering => match reply {
                SetupReply::Registered(terminated, matched) => match check_registration(
                    terminated,
                    matched,
                ) {
                    Ok(_) => Ok(SetupStage::Draining),
                    Err(_) => Ok(SetupStage::Destroying),
                },
                _ => Err(Unexpected),
            },
            SetupStage::Destroying => match reply {
                SetupReply::Done => Ok(SetupStage::Failed(Error::RegistrationFailed)),
                _ => Err(Unexpected),
            },
            SetupStage::Draining => match reply {
                SetupReply::Done => Ok(SetupStage::Joining),
                _ => Err(Unexpected),
            },
            SetupStage::Joining => match reply {
                SetupReply::Done => Ok(SetupStage::Ready),
                _ => Err(Unexpected),
            },
            _ => Err(Unexpected),
        }
    }
}

} // verus!
