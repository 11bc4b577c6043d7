//! Central event bridge: a thin pass-through from adapter-level discovery,
//! connect and disconnect events to the outward event stream, attaching the
//! cached device name when one is known.

use vstd::prelude::*;

use crate::registry::PeripheralResult;

verus! {

/// An adapter-level event about one peripheral, identified by id.
/// Advertisement and update events are ignored by the bridge and have no
/// variant here.
#[derive(Debug, Clone, PartialEq)]
pub enum CentralDeviceEvent {
    Discovered(String),
    Disconnected(String),
    Connected(String),
}

impl CentralDeviceEvent {
    /// The peripheral id the event carries.
    pub open spec fn spec_id(&self) -> Seq<char> {
        match self {
            CentralDeviceEvent::Discovered(id) => id@,
            CentralDeviceEvent::Disconnected(id) => id@,
            CentralDeviceEvent::Connected(id) => id@,
        }
    }
}

/// An outward event about one peripheral.
#[derive(Debug, Clone, PartialEq)]
pub enum DeviceEvent {
    Discovered(PeripheralResult),
    Disconnected(PeripheralResult),
    Connected(PeripheralResult),
}

impl DeviceEvent {
    /// The peripheral description the event carries.
    pub open spec fn spec_peripheral(&self) -> PeripheralResult {
        match self {
            DeviceEvent::Discovered(p) => *p,
            DeviceEvent::Disconnected(p) => *p,
            DeviceEvent::Connected(p) => *p,
        }
    }
}

/// Forward one adapter-level event outward: the kind and the id are
/// preserved, the cached name (or its absence) is attached, and the
/// peripheral is reported connected exactly for a connect event.
pub fn bridge_event(event: CentralDeviceEvent, cached_name: Option<String>) -> (r: DeviceEvent)
    ensures
        r.spec_peripheral().id@ == event.spec_id(),
        r.spec_peripheral().name == cached_name,
        r.spec_peripheral().connected == (event matches CentralDeviceEvent::Connected(_)),
        (r is Discovered) == (event is Discovered),
        (r is Disconnected) == (event is Disconnected),
        (r is Connected) == (event is Connected),
{
    match event {
        CentralDeviceEvent::Discovered(id) => DeviceEvent::Discovered(
            PeripheralResult { id, name: cached_name, connected: false },
        ),
        CentralDeviceEvent::Disconnected(id) => DeviceEvent::Disconnected(
            PeripheralResult { id, name: cached_name, connected: false },
        ),
        CentralDeviceEvent::Connected(id) => DeviceEvent::Connected(
            PeripheralResult { id, name: cached_name, connected: true },
        ),
    }
}

} // verus!
