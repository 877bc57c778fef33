use std::sync::{Arc, Mutex};
use std::task::{Context, Wake, Waker};

use hotplug_watch::{
    callback, DeviceId, DeviceInfo, Error, HotplugEvent, Inner, MacHotplugWatch, Readiness,
};

struct WakeCount(Mutex<usize>);

impl Wake for WakeCount {
    fn wake(self: Arc<Self>) {
        *self.0.lock().unwrap() += 1;
    }
}

fn counter() -> (Arc<WakeCount>, Waker) {
    let count = Arc::new(WakeCount(Mutex::new(0)));
    let waker = Waker::from(count.clone());
    (count, waker)
}

fn woken(count: &Arc<WakeCount>) -> usize {
    *count.0.lock().unwrap()
}

fn device(registry_id: u64) -> DeviceInfo {
    DeviceInfo { registry_id, location_id: 0x1420_0000, vendor_id: 0x05ac, product_id: 0x8600 }
}

fn fresh(connected: Vec<Option<DeviceInfo>>) -> MacHotplugWatch {
    MacHotplugWatch::new(true, 0, 0, connected).unwrap()
}

#[test]
fn end_to_end_arrival_then_removal() {
    let (_count, waker) = counter();
    let mut cx = Context::from_waker(&waker);
    let mut watch = fresh(vec![Some(device(1))]);
    assert_eq!(watch.pending(), (0, 0));
    assert_eq!(watch.poll_next(&mut cx), Readiness::Pending);

    watch.notify_arrival(Some(device(42)));
    assert_eq!(
        watch.poll_next(&mut cx),
        Readiness::Ready(HotplugEvent::Connected(device(42)))
    );

    watch.notify_termination(Some(42));
    assert_eq!(
        watch.poll_next(&mut cx),
        Readiness::Ready(HotplugEvent::Disconnected(DeviceId(42)))
    );
    assert_eq!(watch.poll_next(&mut cx), Readiness::Pending);
}

#[test]
fn connected_devices_are_not_reported() {
    let (_count, waker) = counter();
    let mut cx = Context::from_waker(&waker);
    let mut watch = fresh(vec![Some(device(1)), None, Some(device(2))]);
    assert_eq!(watch.pending(), (0, 0));
    assert_eq!(watch.poll_next(&mut cx), Readiness::Pending);
    assert_eq!(watch.poll_next(&mut cx), Readiness::Pending);
    watch.notify_arrival(Some(device(3)));
    assert_eq!(
        watch.poll_next(&mut cx),
        Readiness::Ready(HotplugEvent::Connected(device(3)))
    );
    assert_eq!(watch.poll_next(&mut cx), Readiness::Pending);
}

#[test]
fn no_entry_is_reported_twice() {
    let (_count, waker) = counter();
    let mut cx = Context::from_waker(&waker);
    let mut watch = fresh(Vec::new());
    watch.notify_arrival(Some(device(10)));
    watch.notify_arrival(Some(device(11)));
    watch.notify_termination(Some(10));
    let mut seen = Vec::new();
    for _ in 0..6 {
        if let Some(event) = watch.poll_next(&mut cx).event() {
            assert!(!seen.contains(&event));
            seen.push(event);
        }
    }
    assert_eq!(
        seen,
        vec![
            HotplugEvent::Connected(device(10)),
            HotplugEvent::Connected(device(11)),
            HotplugEvent::Disconnected(DeviceId(10)),
        ]
    );
    assert_eq!(watch.pending(), (0, 0));
}

#[test]
fn arrivals_are_drained_before_terminations() {
    let (_count, waker) = counter();
    let mut cx = Context::from_waker(&waker);
    let mut watch = fresh(Vec::new());
    watch.notify_termination(Some(5));
    watch.notify_arrival(Some(device(6)));
    watch.notify_arrival(Some(device(7)));
    assert_eq!(
        watch.poll_next(&mut cx),
        Readiness::Ready(HotplugEvent::Connected(device(6)))
    );
    assert_eq!(watch.pending(), (1, 1));
    assert_eq!(
        watch.poll_next(&mut cx),
        Readiness::Ready(HotplugEvent::Connected(device(7)))
    );
    assert_eq!(watch.pending(), (0, 1));
    assert_eq!(
        watch.poll_next(&mut cx),
        Readiness::Ready(HotplugEvent::Disconnected(DeviceId(5)))
    );
    assert_eq!(watch.pending(), (0, 0));
}

#[test]
fn failed_arrivals_then_termination_in_one_poll() {
    let (_count, waker) = counter();
    let mut cx = Context::from_waker(&waker);
    let mut watch = fresh(Vec::new());
    watch.notify_arrival(None);
    watch.notify_arrival(None);
    watch.notify_termination(Some(9));
    assert_eq!(
        watch.poll_next(&mut cx),
        Readiness::Ready(HotplugEvent::Disconnected(DeviceId(9)))
    );
    assert_eq!(watch.pending(), (0, 0));
}

#[test]
fn failed_probe_is_passed_over() {
    let (_count, waker) = counter();
    let mut cx = Context::from_waker(&waker);
    let mut watch = fresh(Vec::new());
    watch.notify_arrival(None);
    watch.notify_arrival(None);
    watch.notify_arrival(Some(device(3)));
    watch.notify_arrival(Some(device(4)));
    assert_eq!(
        watch.poll_next(&mut cx),
        Readiness::Ready(HotplugEvent::Connected(device(3)))
    );
    assert_eq!(watch.pending(), (1, 0));
}

#[test]
fn unidentified_termination_costs_one_poll() {
    let (_count, waker) = counter();
    let mut cx = Context::from_waker(&waker);
    let mut watch = fresh(Vec::new());
    watch.notify_termination(None);
    watch.notify_termination(Some(8));
    assert_eq!(watch.poll_next(&mut cx), Readiness::Pending);
    assert_eq!(watch.pending(), (0, 1));
    assert_eq!(
        watch.poll_next(&mut cx),
        Readiness::Ready(HotplugEvent::Disconnected(DeviceId(8)))
    );
}

#[test]
fn at_most_one_termination_per_poll() {
    let (_count, waker) = counter();
    let mut cx = Context::from_waker(&waker);
    let mut watch = fresh(Vec::new());
    watch.notify_termination(Some(1));
    watch.notify_termination(Some(2));
    assert_eq!(
        watch.poll_next(&mut cx),
        Readiness::Ready(HotplugEvent::Disconnected(DeviceId(1)))
    );
    assert_eq!(watch.pending(), (0, 1));
}

#[test]
fn callback_wakes_the_parked_task_once() {
    let (count, waker) = counter();
    let mut cx = Context::from_waker(&waker);
    let mut watch = fresh(Vec::new());
    assert_eq!(watch.poll_next(&mut cx), Readiness::Pending);
    assert_eq!(woken(&count), 0);
    callback(watch.inner());
    assert_eq!(woken(&count), 1);
    callback(watch.inner());
    assert_eq!(woken(&count), 1);
}

#[test]
fn queued_notification_wakes_the_parked_task() {
    let (count, waker) = counter();
    let mut cx = Context::from_waker(&waker);
    let mut watch = fresh(Vec::new());
    assert_eq!(watch.poll_next(&mut cx), Readiness::Pending);
    watch.notify_arrival(Some(device(1)));
    assert_eq!(woken(&count), 1);
    assert_eq!(
        watch.poll_next(&mut cx),
        Readiness::Ready(HotplugEvent::Connected(device(1)))
    );
    watch.notify_termination(Some(1));
    assert_eq!(woken(&count), 2);
}

#[test]
fn later_waker_replaces_the_earlier() {
    let (first_count, first) = counter();
    let (second_count, second) = counter();
    let mut watch = fresh(Vec::new());
    let mut cx = Context::from_waker(&first);
    assert_eq!(watch.poll_next(&mut cx), Readiness::Pending);
    let mut cx = Context::from_waker(&second);
    assert_eq!(watch.poll_next(&mut cx), Readiness::Pending);
    callback(watch.inner());
    assert_eq!(woken(&first_count), 0);
    assert_eq!(woken(&second_count), 1);
}

#[test]
fn callback_without_a_waker_does_nothing() {
    let inner = Inner::new();
    inner.wake();
    callback(&inner);
    let (count, waker) = counter();
    let cx = Context::from_waker(&waker);
    inner.register(&cx);
    assert_eq!(woken(&count), 0);
    inner.wake();
    assert_eq!(woken(&count), 1);
}

#[test]
fn setup_fails_without_criteria() {
    let r = MacHotplugWatch::new(false, 0, 0, vec![Some(device(1))]);
    assert_eq!(r.err(), Some(Error::MatchingFailed));
    let r = MacHotplugWatch::new(false, -1, -1, Vec::new());
    assert_eq!(r.err(), Some(Error::MatchingFailed));
}

#[test]
fn setup_fails_unless_both_registrations_succeed() {
    assert_eq!(
        MacHotplugWatch::new(true, -536870212, 0, Vec::new()).err(),
        Some(Error::RegistrationFailed)
    );
    assert_eq!(
        MacHotplugWatch::new(true, 0, 1, Vec::new()).err(),
        Some(Error::RegistrationFailed)
    );
    assert_eq!(
        MacHotplugWatch::new(true, 5, 5, Vec::new()).err(),
        Some(Error::RegistrationFailed)
    );
    assert!(MacHotplugWatch::new(true, 0, 0, Vec::new()).is_ok());
}

#[test]
fn device_id_of_info() {
    assert_eq!(device(77).id(), DeviceId(77));
    assert_eq!(Readiness::Pending.event(), None);
    assert_eq!(
        Readiness::Ready(HotplugEvent::Disconnected(DeviceId(3))).event(),
        Some(HotplugEvent::Disconnected(DeviceId(3)))
    );
}
