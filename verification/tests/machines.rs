use hotplug_watch::{
    check_criteria, check_registration, Command, DeviceId, DeviceInfo, Error, HotplugEvent,
    NotificationQueue, Readiness, Reply, SetupCommand, SetupReply, SetupStage, Stage, Taken,
    Unexpected, REGISTRATION_SUCCESS,
};

fn device(registry_id: u64) -> DeviceInfo {
    DeviceInfo { registry_id, location_id: 1, vendor_id: 2, product_id: 3 }
}

#[test]
fn poll_begins_with_the_waker() {
    assert_eq!(Stage::start(), Stage::Arming);
    assert_eq!(Stage::Arming.command(), Command::RegisterWaker);
    assert_eq!(Stage::Arming.step(Reply::WakerRegistered), Ok(Stage::Arrivals));
    assert_eq!(Stage::Arrivals.command(), Command::TakeArrival);
    assert_eq!(Stage::Terminations.command(), Command::TakeTermination);
    assert_eq!(
        Stage::Finished(Readiness::Pending).command(),
        Command::Return(Readiness::Pending)
    );
}

#[test]
fn arrival_replies() {
    assert_eq!(
        Stage::Arrivals.step(Reply::Arrival(Taken::Got(device(4)))),
        Ok(Stage::Finished(Readiness::Ready(HotplugEvent::Connected(device(4)))))
    );
    assert_eq!(Stage::Arrivals.step(Reply::Arrival(Taken::Failed)), Ok(Stage::Arrivals));
    assert_eq!(Stage::Arrivals.step(Reply::Arrival(Taken::Empty)), Ok(Stage::Terminations));
}

#[test]
fn termination_replies() {
    assert_eq!(
        Stage::Terminations.step(Reply::Termination(Taken::Got(12))),
        Ok(Stage::Finished(Readiness::Ready(HotplugEvent::Disconnected(DeviceId(12)))))
    );
    assert_eq!(
        Stage::Terminations.step(Reply::Termination(Taken::Failed)),
        Ok(Stage::Finished(Readiness::Pending))
    );
    assert_eq!(
        Stage::Terminations.step(Reply::Termination(Taken::Empty)),
        Ok(Stage::Finished(Readiness::Pending))
    );
}

#[test]
fn unexpected_poll_replies_are_refused() {
    assert_eq!(Stage::Arming.step(Reply::Arrival(Taken::Got(device(1)))), Err(Unexpected));
    assert_eq!(Stage::Arming.step(Reply::Termination(Taken::Empty)), Err(Unexpected));
    assert_eq!(Stage::Arrivals.step(Reply::WakerRegistered), Err(Unexpected));
    assert_eq!(Stage::Terminations.step(Reply::WakerRegistered), Err(Unexpected));
    assert_eq!(Stage::Arrivals.step(Reply::Termination(Taken::Got(1))), Err(Unexpected));
    assert_eq!(Stage::Terminations.step(Reply::Arrival(Taken::Empty)), Err(Unexpected));
    assert_eq!(
        Stage::Finished(Readiness::Pending).step(Reply::Arrival(Taken::Failed)),
        Err(Unexpected)
    );
}

#[test]
fn queue_gives_entries_in_order_once() {
    let mut q: NotificationQueue<u64> = NotificationQueue::new();
    assert!(matches!(q.take(), Taken::Empty));
    q.enqueue(Some(1));
    q.enqueue(None);
    q.enqueue(Some(3));
    assert_eq!(q.pending_len(), 3);
    assert!(matches!(q.take(), Taken::Got(1)));
    assert!(matches!(q.take(), Taken::Failed));
    assert_eq!(q.pending_len(), 1);
    assert!(matches!(q.take(), Taken::Got(3)));
    assert!(matches!(q.take(), Taken::Empty));
    assert_eq!(q.pending_len(), 0);
}

#[test]
fn queue_drain_drops_everything_pending() {
    let mut q = NotificationQueue::holding(vec![Some(1u64), None, Some(3), Some(4)]);
    assert!(matches!(q.take(), Taken::Got(1)));
    assert_eq!(q.drain(), 3);
    assert_eq!(q.pending_len(), 0);
    assert_eq!(q.drain(), 0);
    q.enqueue(Some(9));
    assert!(matches!(q.take(), Taken::Got(9)));
}

#[test]
fn criteria_and_registration_checks() {
    assert_eq!(REGISTRATION_SUCCESS, 0);
    assert_eq!(check_criteria(true), Ok(()));
    assert_eq!(check_criteria(false), Err(Error::MatchingFailed));
    assert_eq!(check_registration(0, 0), Ok(()));
    assert_eq!(check_registration(1, 0), Err(Error::RegistrationFailed));
    assert_eq!(check_registration(0, -1), Err(Error::RegistrationFailed));
    assert_eq!(check_registration(i32::MIN, i32::MAX), Err(Error::RegistrationFailed));
}

#[test]
fn error_messages() {
    assert_eq!(Error::MatchingFailed.message(), "IOServiceMatching failed");
    assert_eq!(Error::RegistrationFailed.message(), "Failed to register notification");
}

fn run_setup(criteria: bool, terminated: i32, matched: i32) -> Vec<SetupCommand> {
    let mut stage = SetupStage::start();
    let mut commands = Vec::new();
    loop {
        let command = stage.command();
        commands.push(command);
        let reply = match command {
            SetupCommand::BuildCriteria => SetupReply::Criteria(criteria),
            SetupCommand::Register => SetupReply::Registered(terminated, matched),
            SetupCommand::Succeed | SetupCommand::Fail(_) => return commands,
            _ => SetupReply::Done,
        };
        stage = stage.step(reply).unwrap();
    }
}

#[test]
fn setup_succeeds_in_order() {
    assert_eq!(
        run_setup(true, 0, 0),
        vec![
            SetupCommand::BuildCriteria,
            SetupCommand::Register,
            SetupCommand::DrainArrivals,
            SetupCommand::AddEventSource,
            SetupCommand::Succeed,
        ]
    );
}

#[test]
fn setup_without_criteria_opens_nothing() {
    assert_eq!(
        run_setup(false, 0, 0),
        vec![SetupCommand::BuildCriteria, SetupCommand::Fail(Error::MatchingFailed)]
    );
}

#[test]
fn setup_destroys_the_port_on_failed_registration() {
    let expected = vec![
        SetupCommand::BuildCriteria,
        SetupCommand::Register,
        SetupCommand::DestroyPort,
        SetupCommand::Fail(Error::RegistrationFailed),
    ];
    assert_eq!(run_setup(true, 0, 7), expected);
    assert_eq!(run_setup(true, 7, 0), expected);
    assert_eq!(run_setup(true, 7, 7), expected);
}

#[test]
fn unexpected_setup_replies_are_refused() {
    assert_eq!(SetupStage::Matching.step(SetupReply::Done), Err(Unexpected));
    assert_eq!(SetupStage::Registering.step(SetupReply::Criteria(true)), Err(Unexpected));
    assert_eq!(SetupStage::Destroying.step(SetupReply::Registered(0, 0)), Err(Unexpected));
    assert_eq!(SetupStage::Draining.step(SetupReply::Criteria(true)), Err(Unexpected));
    assert_eq!(SetupStage::Joining.step(SetupReply::Registered(0, 0)), Err(Unexpected));
    assert_eq!(SetupStage::Ready.step(SetupReply::Done), Err(Unexpected));
    assert_eq!(
        SetupStage::Failed(Error::MatchingFailed).step(SetupReply::Done),
        Err(Unexpected)
    );
}
