use vstd::prelude::*;

verus! {

/// The identity of a device for as long as it stays connected: the registry
/// identifier that the operating system gave it.
#[derive(Clone, Copy, Debug, PartialEq, Eq, Structural, Hash)]
pub struct DeviceId(pub u64);

/// What a successful probe of a newly arrived service reports.
#[derive(Clone, Copy, Debug, PartialEq, Eq, Structural, Hash)]
pub struct DeviceInfo {
    pub registry_id: u64,
    pub location_id: u32,
    pub vendor_id: u16,
    pub product_id: u16,
}

impl DeviceInfo {
    /// The identity under which the removal of this device will be reported.
    pub fn id(&self) -> (id: DeviceId)
        ensures
            id == DeviceId(self.registry_id),
    {
        DeviceId(self.registry_id)
    }
}

/// One arrival or one removal.
#[derive(Clone, Copy, Debug, PartialEq, Eq, Structural)]
pub enum HotplugEvent {
    Connected(DeviceInfo),
    Disconnected(DeviceId),
}

/// What one poll of the watch gives: an event, or nothing yet.
#[derive(Clone, Copy, Debug, PartialEq, Eq, Structural)]
pub enum Readiness {
    Pending,
    Ready(HotplugEvent),
}

impl Readiness {
    /// The event, where there is one.
    pub fn event(&self) -> (e: Option<HotplugEvent>)
        ensures
            e == match *self {
                Readiness::Pending => None::<HotplugEvent>,
                Readiness::Ready(ev) => Some(ev),
            },
    {
        match *self {
            Readiness::Pending => None,
            Readiness::Ready(ev) => Some(ev),
        }
    }
}

} // verus!
