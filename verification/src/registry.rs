//! Session registry: the set of device sessions, keyed by peripheral id (at
//! most one session per id), plus the selected adapter. Sessions are
//! adapter-scoped: switching adapter drops them all.

use vstd::prelude::*;

use crate::proto::DeviceError;
use crate::session::{BedJet, SERVICE_UUID};

verus! {

/// A peripheral as reported outward: its id, its cached name if one is
/// known, and whether it is currently connected.
#[derive(Debug, Clone, PartialEq)]
pub struct PeripheralResult {
    pub id: String,
    pub name: Option<String>,
    pub connected: bool,
}

/// The selected adapter and all available adapters, by display name.
#[derive(Debug, Clone, PartialEq)]
pub struct AdapterResult {
    pub selected: String,
    pub adapters: Vec<String>,
}

/// What a connect request must do for a given id.
#[derive(Debug, Clone, Copy, PartialEq, Eq, Structural)]
pub enum ConnectPlan {
    /// A session for the id is already registered at this index: make sure
    /// its transport is connected and its listener running. No new entry is
    /// created, so reconnecting never duplicates a session.
    EnsureConnected(usize),
    /// No session exists and a matching peripheral is visible at this index
    /// in the given list: connect it and register a new session.
    Create(usize),
}

/// The registry of connected device sessions and the selected adapter.
pub struct Registry {
    selected_adapter: String,
    all_adapters: Vec<String>,
    devices: Vec<BedJet>,
}

impl Registry {
    /// The registered sessions, in registration order.
    pub closed spec fn spec_devices(&self) -> Seq<BedJet> {
        self.devices@
    }

    /// Display name of the selected adapter.
    pub closed spec fn spec_selected(&self) -> Seq<char> {
        self.selected_adapter@
    }

    /// Display names of all available adapters.
    pub closed spec fn spec_adapters(&self) -> Seq<String> {
        self.all_adapters@
    }

    /// Whether some session is registered for the id.
    pub open spec fn spec_has_id(&self, id: Seq<char>) -> bool {
        exists|i: int|
            0 <= i < self.spec_devices().len() && self.spec_devices()[i].spec_id() == id
    }

    /// The index of the session registered for the id.
    pub open spec fn spec_index_of(&self, id: Seq<char>) -> int {
        choose|i: int|
            0 <= i < self.spec_devices().len() && self.spec_devices()[i].spec_id() == id
    }

    /// At most one session per id, each well-formed.
    pub open spec fn wf(&self) -> bool {
        &&& forall|i: int, j: int|
            0 <= i < j < self.spec_devices().len() ==> self.spec_devices()[i].spec_id()
                != self.spec_devices()[j].spec_id()
        &&& forall|i: int|
            0 <= i < self.spec_devices().len() ==> (#[trigger] self.spec_devices()[i]).wf()
    }

    /// An empty registry over the given adapters.
    pub fn new(selected_adapter: String, all_adapters: Vec<String>) -> (r: Registry)
        ensures
            r.wf(),
            r.spec_devices() == Seq::<BedJet>::empty(),
            r.spec_selected() == selected_adapter@,
            r.spec_adapters() == all_adapters@,
    {
        Registry { selected_adapter, all_adapters, devices: Vec::new() }
    }

    /// Switch to another adapter. Every session belongs to the old adapter,
    /// so all of them are dropped; the driver disconnects their transports.
    pub fn set_adapter(&mut self, adapter: String)
        requires
            old(self).wf(),
        ensures
            final(self).wf(),
            final(self).spec_selected() == adapter@,
            final(self).spec_adapters() == old(self).spec_adapters(),
            final(self).spec_devices() == Seq::<BedJet>::empty(),
    {
        self.selected_adapter = adapter;
        self.devices = Vec::new();
    }

    /// The selected adapter and the list of all adapters, by name.
    pub fn adapter_result(&self) -> (r: AdapterResult)
        ensures
            r.selected@ == self.spec_selected(),
            r.adapters@.len() == self.spec_adapters().len(),
            forall|k: int|
                0 <= k < r.adapters@.len() ==> r.adapters@[k]@ == self.spec_adapters()[k]@,
    {
        let mut adapters: Vec<String> = Vec::new();
        let mut i: usize = 0;
        while i < self.all_adapters.len()
            invariant
                i <= self.spec_adapters().len(),
                adapters@.len() == i,
                forall|k: int| 0 <= k < i ==> adapters@[k]@ == self.spec_adapters()[k]@,
            decreases self.spec_adapters().len() - i,
        {
            adapters.push(self.all_adapters[i].clone());
            i += 1;
        }
        AdapterResult { selected: self.selected_adapter.clone(), adapters }
    }

    /// The service filter a discovery scan uses: only peripherals that
    /// advertise the device's service are of interest.
    pub fn scan_filter_services(&self) -> (r: Vec<u128>)
        ensures
            r@ == seq![SERVICE_UUID],
    {
        let mut services: Vec<u128> = Vec::new();
        services.push(SERVICE_UUID);
        services
    }

    /// The index of the session registered for the id, if any.
    pub fn find_device_by_id(&self, id: &String) -> (r: Option<usize>)
        requires
            self.wf(),
        ensures
            match r {
                Some(i) => i < self.spec_devices().len() && self.spec_devices()[i as int].spec_id()
                    == id@,
                None => !self.spec_has_id(id@),
            },
    {
        let mut i: usize = 0;
        while i < self.devices.len()
            invariant
                i <= self.spec_devices().len(),
                forall|k: int| 0 <= k < i ==> self.spec_devices()[k].spec_id() != id@,
            decreases self.spec_devices().len() - i,
        {
            if *self.devices[i].id() == *id {
                return Some(i);
            }
            i += 1;
        }
        None
    }

    /// Shared access to the session at a given index.
    pub fn device_at(&self, i: usize) -> (r: &BedJet)
        requires
            i < self.spec_devices().len(),
        ensures
            *r == self.spec_devices()[i as int],
    {
        &self.devices[i]
    }

    /// Exclusive access to the session at a given index.
    pub fn device_at_mut(&mut self, i: usize) -> (r: &mut BedJet)
        requires
            i < old(self).spec_devices().len(),
        ensures
            *r == old(self).spec_devices()[i as int],
            final(self).spec_devices() == old(self).spec_devices().update(
                i as int,
                *final(r),
            ),
            final(self).spec_selected() == old(self).spec_selected(),
            final(self).spec_adapters() == old(self).spec_adapters(),
    {
        &mut self.devices[i]
    }

    /// Decide how to satisfy a connect request for `id`, given the
    /// peripherals currently visible. An existing session is reused — never
    /// duplicated; otherwise a visible peripheral with a matching id is
    /// connected; and if neither exists the request fails, exactly then,
    /// with `DeviceNotFound`.
    pub fn connect_plan(&self, id: &String, visible: &Vec<String>) -> (r: Result<
        ConnectPlan,
        DeviceError,
    >)
        requires
            self.wf(),
        ensures
            match r {
                Ok(ConnectPlan::EnsureConnected(i)) => i < self.spec_devices().len()
                    && self.spec_devices()[i as int].spec_id() == id@,
                Ok(ConnectPlan::Create(p)) => !self.spec_has_id(id@) && p < visible@.len()
                    && visible@[p as int]@ == id@,
                Err(e) => {
                    &&& e == DeviceError::DeviceNotFound
                    &&& !self.spec_has_id(id@)
                    &&& forall|k: int| 0 <= k < visible@.len() ==> visible@[k]@ != id@
                },
            },
    {
        if let Some(i) = self.find_device_by_id(id) {
            return Ok(ConnectPlan::EnsureConnected(i));
        }
        let mut p: usize = 0;
        while p < visible.len()
            invariant
                p <= visible@.len(),
                !self.spec_has_id(id@),
                forall|k: int| 0 <= k < p ==> visible@[k]@ != id@,
            decreases visible@.len() - p,
        {
            if visible[p] == *id {
                return Ok(ConnectPlan::Create(p));
            }
            p += 1;
        }
        Err(DeviceError::DeviceNotFound)
    }

    /// Register a newly created session. The caller has just checked that no
    /// session with this id exists, so uniqueness of ids is preserved.
    pub fn register(&mut self, device: BedJet)
        requires
            old(self).wf(),
            device.wf(),
            !old(self).spec_has_id(device.spec_id()),
        ensures
            final(self).wf(),
            final(self).spec_devices() == old(self).spec_devices().push(device),
            final(self).spec_selected() == old(self).spec_selected(),
            final(self).spec_adapters() == old(self).spec_adapters(),
    {
        proof {
            let devs = self.spec_devices();
            assert forall|i: int|
                0 <= i < devs.len() implies devs[i].spec_id() != device.spec_id() by {
                if devs[i].spec_id() == device.spec_id() {
                    assert(self.spec_has_id(device.spec_id()));
                }
            }
        }
        self.devices.push(device);
    }

    /// Drop the session for `id`, if one is registered; afterwards no
    /// session with that id remains, and every other session is untouched,
    /// in order. A no-op when the id is absent.
    pub fn disconnect_peripheral(&mut self, id: &String)
        requires
            old(self).wf(),
        ensures
            final(self).wf(),
            !final(self).spec_has_id(id@),
            final(self).spec_selected() == old(self).spec_selected(),
            final(self).spec_adapters() == old(self).spec_adapters(),
            old(self).spec_has_id(id@) ==> final(self).spec_devices() == old(
                self,
            ).spec_devices().remove(old(self).spec_index_of(id@)),
            !old(self).spec_has_id(id@) ==> final(self).spec_devices() == old(
                self,
            ).spec_devices(),
    {
        let found = self.find_device_by_id(id);
        match found {
            Some(i) => {
                proof {
                    let devs = self.spec_devices();
                    let j = self.spec_index_of(id@);
                    // the witness behind `spec_index_of` is the same index,
                    // since ids are unique
                    assert(0 <= j < devs.len() && devs[j].spec_id() == id@);
                    assert(i == j);
                    assert forall|k: int|
                        0 <= k < devs.remove(i as int).len() implies devs.remove(
                        i as int,
                    )[k].spec_id() != id@ by {
                        if k < i {
                            assert(devs.remove(i as int)[k] == devs[k]);
                        } else {
                            assert(devs.remove(i as int)[k] == devs[k + 1]);
                        }
                    }
                }
                self.devices.remove(i);
            },
            None => (),
        }
    }
}

/// One session per id: in a well-formed registry two entries with the same
/// id are the same entry, so reconnecting can never leave a duplicate.
pub proof fn lemma_one_session_per_id(reg: Registry, i: int, j: int)
    requires
        reg.wf(),
        0 <= i < reg.spec_devices().len(),
        0 <= j < reg.spec_devices().len(),
        reg.spec_devices()[i].spec_id() == reg.spec_devices()[j].spec_id(),
    ensures
        i == j,
{
}

} // verus!
