//! Device session: one connected peripheral. The session owns the four
//! characteristic handles fixed at connect time, a single restartable
//! listener, and the latest-status slot that distributes decoded frames.
//!
//! The transport itself (connect, subscribe, read, write) is asynchronous
//! I/O and lives outside this crate; the session model here makes every
//! decision — which characteristics to keep, when a listener may be spawned,
//! how a raw notification is classified, assembled, decoded and published —
//! and the surrounding driver only performs the chosen actions.

use vstd::prelude::*;

use crate::codec::Decode;
use crate::proto::{DeviceError, DeviceStatus};
use crate::status_slot::{spec_latest, StatusReader, StatusSlot};
use crate::translate::{spec_translate, ParsedDeviceStatus};

verus! {

/// Service UUID the device advertises.
pub const SERVICE_UUID: u128 = 324577607269236719219879600350580;

/// Characteristic carrying status notification frames.
pub const DEVICE_STATUS_UUID: u128 = 649096160927663446003035620926836;

/// Characteristic carrying the device's friendly name.
pub const FRIENDLY_NAME_UUID: u128 = 649175389090177710340629164877172;

pub const WIFI_SSID_UUID: u128 = 649254617252691974678222708827508;

pub const WIFI_PASSWORD_UUID: u128 = 649333845415206239015816252777844;

/// Characteristic accepting encoded command frames.
pub const COMMANDS_UUID: u128 = 649413073577720503353409796728180;

pub const EXTENDED_DATA_UUID: u128 = 649492301740234767691003340678516;

/// Lifecycle of the per-session background listener task.
#[derive(Debug, Clone, Copy, PartialEq, Eq, Structural)]
pub enum ListenerState {
    /// No listener has ever been spawned.
    Idle,
    /// A listener task is running.
    Running,
    /// The most recent listener task has run to completion but has not been
    /// joined yet.
    Finished,
}

/// What a start request asks the driver to do with the real task handle.
#[derive(Debug, Clone, Copy, PartialEq, Eq, Structural)]
pub enum ListenerAction {
    /// A listener is already running: do nothing.
    AlreadyRunning,
    /// Spawn a fresh listener task.
    Spawn,
    /// Join the finished task first — propagating any error it produced —
    /// then spawn a replacement.
    JoinThenSpawn,
}

/// The action a start request takes from each listener state.
pub open spec fn spec_start_action(state: ListenerState) -> ListenerAction {
    match state {
        ListenerState::Idle => ListenerAction::Spawn,
        ListenerState::Running => ListenerAction::AlreadyRunning,
        ListenerState::Finished => ListenerAction::JoinThenSpawn,
    }
}

/// Whether the action spawns a new listener task.
pub open spec fn spec_spawns(action: ListenerAction) -> bool {
    !(action is AlreadyRunning)
}

/// One start request at the model level: the state it leaves behind and the
/// running total of tasks ever spawned.
pub open spec fn spec_start(state: ListenerState, spawned: nat) -> (ListenerState, nat) {
    (
        ListenerState::Running,
        spawned + if spec_spawns(spec_start_action(state)) {
            1nat
        } else {
            0nat
        },
    )
}

/// The mutually-exclusive listener slot of one session. Access to the real
/// task handle is serialized by a lock; this model records the state the
/// handle is in and how many tasks have ever been spawned.
pub struct ListenerSlot {
    state: ListenerState,
    spawned: Ghost<nat>,
}

impl ListenerSlot {
    pub closed spec fn spec_state(&self) -> ListenerState {
        self.state
    }

    /// How many listener tasks have ever been spawned from this slot.
    pub closed spec fn spec_spawn_count(&self) -> nat {
        self.spawned@
    }

    /// A slot that has never held a task.
    pub fn new() -> (r: ListenerSlot)
        ensures
            r.spec_state() is Idle,
            r.spec_spawn_count() == 0,
    {
        ListenerSlot { state: ListenerState::Idle, spawned: Ghost(0nat) }
    }

    pub fn state(&self) -> (r: ListenerState)
        ensures
            r == self.spec_state(),
    {
        self.state
    }

    /// Request that a listener be running, and say what the driver must do.
    /// Idempotent: when a listener is already running nothing is spawned, so
    /// concurrent (lock-serialized) calls cannot produce duplicates.
    pub fn start_listening(&mut self) -> (action: ListenerAction)
        ensures
            action == spec_start_action(old(self).spec_state()),
            (final(self).spec_state(), final(self).spec_spawn_count()) == spec_start(
                old(self).spec_state(),
                old(self).spec_spawn_count(),
            ),
    {
        let action = match self.state {
            ListenerState::Idle => ListenerAction::Spawn,
            ListenerState::Running => ListenerAction::AlreadyRunning,
            ListenerState::Finished => ListenerAction::JoinThenSpawn,
        };
        self.state = ListenerState::Running;
        proof {
            if spec_spawns(action) {
                self.spawned@ = self.spawned@ + 1;
            }
        }
        action
    }

    /// Record that the running task has completed (its notification stream
    /// ended or it failed mid-flight); the slot is left joinable, never
    /// locked shut.
    pub fn note_finished(&mut self)
        requires
            old(self).spec_state() is Running,
        ensures
            final(self).spec_state() is Finished,
            final(self).spec_spawn_count() == old(self).spec_spawn_count(),
    {
        self.state = ListenerState::Finished;
    }
}

/// Starting a listener twice yields exactly one running listener: the second
/// request finds the first one running and spawns nothing.
pub proof fn lemma_start_twice_spawns_once(state: ListenerState, spawned: nat)
    ensures
        ({
            let (s1, n1) = spec_start(state, spawned);
            let (s2, n2) = spec_start(s1, n1);
            &&& s2 == s1
            &&& n2 == n1
            &&& n1 <= spawned + 1
        }),
{
}

/// Starting again after the previous task finished joins it and spawns
/// exactly one replacement.
pub proof fn lemma_restart_after_finished(spawned: nat)
    ensures
        spec_start_action(ListenerState::Finished) is JoinThenSpawn,
        spec_start(ListenerState::Finished, spawned).0 is Running,
        spec_start(ListenerState::Finished, spawned).1 == spawned + 1,
{
}

/// Indices of the four required characteristics within the discovered list.
#[derive(Debug, Clone, Copy, PartialEq, Eq, Structural)]
pub struct CharacteristicSet {
    pub device_status: usize,
    pub friendly_name: usize,
    pub command: usize,
    pub extended_data: usize,
}

/// First position of `target` in `uuids`, if it occurs at all.
fn find_uuid(uuids: &Vec<u128>, target: u128) -> (r: Option<usize>)
    ensures
        match r {
            Some(i) => i < uuids@.len() && uuids@[i as int] == target,
            None => !uuids@.contains(target),
        },
{
    let mut i: usize = 0;
    while i < uuids.len()
        invariant
            i <= uuids@.len(),
            forall|k: int| 0 <= k < i ==> uuids@[k] != target,
        decreases uuids@.len() - i,
    {
        if uuids[i] == target {
            return Some(i);
        }
        i += 1;
    }
    None
}

/// Pick the four required characteristics out of the UUIDs discovered on a
/// peripheral. Succeeds, with the position of each, exactly when all four
/// are present; otherwise the device is unusable and the connect fails.
pub fn select_characteristics(uuids: &Vec<u128>) -> (r: Result<CharacteristicSet, DeviceError>)
    ensures
        match r {
            Ok(c) => {
                &&& c.device_status < uuids@.len()
                &&& uuids@[c.device_status as int] == DEVICE_STATUS_UUID
                &&& c.friendly_name < uuids@.len()
                &&& uuids@[c.friendly_name as int] == FRIENDLY_NAME_UUID
                &&& c.command < uuids@.len()
                &&& uuids@[c.command as int] == COMMANDS_UUID
                &&& c.extended_data < uuids@.len()
                &&& uuids@[c.extended_data as int] == EXTENDED_DATA_UUID
            },
            Err(e) => {
                &&& e == DeviceError::MissingCharacteristic
                &&& !(uuids@.contains(DEVICE_STATUS_UUID) && uuids@.contains(FRIENDLY_NAME_UUID)
                    && uuids@.contains(COMMANDS_UUID) && uuids@.contains(EXTENDED_DATA_UUID))
            },
        },
{
    let device_status = match find_uuid(uuids, DEVICE_STATUS_UUID) {
        Some(i) => i,
        None => {
            return Err(DeviceError::MissingCharacteristic);
        },
    };
    let friendly_name = match find_uuid(uuids, FRIENDLY_NAME_UUID) {
        Some(i) => i,
        None => {
            return Err(DeviceError::MissingCharacteristic);
        },
    };
    let command = match find_uuid(uuids, COMMANDS_UUID) {
        Some(i) => i,
        None => {
            return Err(DeviceError::MissingCharacteristic);
        },
    };
    let extended_data = match find_uuid(uuids, EXTENDED_DATA_UUID) {
        Some(i) => i,
        None => {
            return Err(DeviceError::MissingCharacteristic);
        },
    };
    Ok(CharacteristicSet { device_status, friendly_name, command, extended_data })
}

/// How one raw notification buffer is to be handled. Byte 0 of every
/// notification is a completeness flag, not part of the frame.
#[derive(Debug, Clone, PartialEq, Eq)]
pub enum NotificationAction {
    /// The flag byte was zero: the rest of the buffer is the whole frame.
    DecodeNow(Vec<u8>),
    /// The frame continues beyond this buffer: the remainder must be fetched
    /// with a point read and appended to these bytes before decoding.
    FetchRemainder(Vec<u8>),
}

/// Whether a notification buffer carries a complete frame.
pub open spec fn spec_notification_complete(msg: Seq<u8>) -> bool {
    msg.len() > 0 && msg[0] == 0
}

/// The frame bytes of a notification buffer: everything after the flag byte.
pub open spec fn spec_notification_payload(msg: Seq<u8>) -> Seq<u8> {
    if msg.len() == 0 {
        Seq::empty()
    } else {
        msg.drop_first()
    }
}

/// Inspect a raw notification's completeness flag and strip it.
pub fn classify_notification(msg: &Vec<u8>) -> (r: NotificationAction)
    ensures
        spec_notification_complete(msg@) ==> (r matches NotificationAction::DecodeNow(p)
            && p@ == spec_notification_payload(msg@)),
        !spec_notification_complete(msg@) ==> (r matches NotificationAction::FetchRemainder(p)
            && p@ == spec_notification_payload(msg@)),
{
    let mut payload: Vec<u8> = Vec::new();
    let mut i: usize = 1;
    while i < msg.len()
        invariant
            1 <= i,
            i <= msg@.len() || (msg@.len() == 0 && i == 1),
            payload@ == spec_notification_payload(msg@).take(i - 1),
        decreases msg@.len() - i,
    {
        payload.push(msg[i]);
        i += 1;
    }
    proof {
        assert(payload@ =~= spec_notification_payload(msg@));
    }
    if msg.len() > 0 && msg[0] == 0 {
        NotificationAction::DecodeNow(payload)
    } else {
        NotificationAction::FetchRemainder(payload)
    }
}

/// Concatenate the notification prefix with the bytes a point read fetched.
pub fn assemble_frame(prefix: &Vec<u8>, rest: &Vec<u8>) -> (r: Vec<u8>)
    ensures
        r@ == prefix@ + rest@,
{
    let mut out: Vec<u8> = Vec::new();
    let mut i: usize = 0;
    while i < prefix.len()
        invariant
            i <= prefix@.len(),
            out@ == prefix@.take(i as int),
        decreases prefix@.len() - i,
    {
        out.push(prefix[i]);
        i += 1;
    }
    let mut j: usize = 0;
    while j < rest.len()
        invariant
            j <= rest@.len(),
            out@ == prefix@ + rest@.take(j as int),
        decreases rest@.len() - j,
    {
        out.push(rest[j]);
        j += 1;
    }
    proof {
        assert(out@ =~= prefix@ + rest@);
    }
    out
}

/// The primary interface for interacting with one device. Identity and
/// characteristic handles are fixed at connect time; the status slot and the
/// listener slot are the two independently synchronized mutable fields.
pub struct BedJet {
    /// Peripheral id of the device this session owns.
    pub id: String,
    status_slot: StatusSlot,
    listener: ListenerSlot,
}

impl View for BedJet {
    type V = Seq<DeviceStatus>;

    /// The sequence of status values decoded so far.
    closed spec fn view(&self) -> Seq<DeviceStatus> {
        self.status_slot@
    }
}

impl BedJet {
    pub closed spec fn wf(&self) -> bool {
        self.status_slot.wf()
    }

    /// The peripheral id this session belongs to.
    pub closed spec fn spec_id(&self) -> Seq<char> {
        self.id@
    }

    pub closed spec fn spec_listener_state(&self) -> ListenerState {
        self.listener.spec_state()
    }

    pub closed spec fn spec_listener_spawns(&self) -> nat {
        self.listener.spec_spawn_count()
    }

    /// The peripheral id this session belongs to.
    pub fn id(&self) -> (r: &String)
        ensures
            r@ == self.spec_id(),
    {
        &self.id
    }

    /// A fresh session for one peripheral: empty status slot, no listener.
    pub fn new(id: String) -> (r: BedJet)
        ensures
            r.wf(),
            r@ == Seq::<DeviceStatus>::empty(),
            r.spec_listener_state() is Idle,
            r.spec_listener_spawns() == 0,
            r.spec_id() == id@,
    {
        BedJet { id, status_slot: StatusSlot::new(), listener: ListenerSlot::new() }
    }

    /// Request the listener be running; see [`ListenerSlot::start_listening`].
    pub fn start_listening(&mut self) -> (action: ListenerAction)
        requires
            old(self).wf(),
        ensures
            final(self).wf(),
            final(self)@ == old(self)@,
            final(self).spec_id() == old(self).spec_id(),
            action == spec_start_action(old(self).spec_listener_state()),
            (final(self).spec_listener_state(), final(self).spec_listener_spawns()) == spec_start(
                old(self).spec_listener_state(),
                old(self).spec_listener_spawns(),
            ),
    {
        self.listener.start_listening()
    }

    /// Record that the listener task ended.
    pub fn note_listener_finished(&mut self)
        requires
            old(self).wf(),
            old(self).spec_listener_state() is Running,
        ensures
            final(self).wf(),
            final(self)@ == old(self)@,
            final(self).spec_id() == old(self).spec_id(),
            final(self).spec_listener_state() is Finished,
            final(self).spec_listener_spawns() == old(self).spec_listener_spawns(),
    {
        self.listener.note_finished()
    }

    pub fn listener_state(&self) -> (r: ListenerState)
        ensures
            r == self.spec_listener_state(),
    {
        self.listener.state()
    }

    /// The most recent decoded status, or nothing if no valid frame has
    /// arrived since the session was created. A caller that must not proceed
    /// without a value suspends and asks again after the next change.
    pub fn get_status(&self) -> (r: Option<DeviceStatus>)
        requires
            self.wf(),
        ensures
            r == spec_latest(self@),
    {
        self.status_slot.latest()
    }

    /// A reader that yields every subsequent distinct status; values that
    /// arrive between its observations are coalesced into the latest.
    pub fn subscribe_status(&self) -> (r: StatusReader)
        requires
            self.wf(),
        ensures
            r.spec_seen() == self@.len(),
    {
        self.status_slot.subscribe()
    }

    /// How many status frames have been decoded so far.
    pub fn status_count(&self) -> (r: u64)
        requires
            self.wf(),
        ensures
            r == self@.len(),
    {
        self.status_slot.write_count()
    }

    /// Let a reader observe the session's status slot once.
    pub fn poll_status(&self, reader: &mut StatusReader) -> (r: Option<DeviceStatus>)
        requires
            self.wf(),
            old(reader).spec_seen() <= self@.len(),
        ensures
            final(reader).spec_seen() == self@.len(),
            old(reader).spec_seen() < self@.len() ==> r == spec_latest(self@) && r is Some,
            old(reader).spec_seen() == self@.len() ==> r is None,
    {
        reader.poll_changed(&self.status_slot)
    }

    /// Process one assembled frame from the status characteristic: decode
    /// it, replace the latest-status slot, and say what (if anything) must
    /// be published to the event sink. A malformed frame is dropped silently
    /// and never invalidates the last-known-good status; a decoded value is
    /// published, in translated form, exactly when it differs from the
    /// previous one.
    pub fn handle_status_frame(&mut self, data: &Vec<u8>) -> (publish: Option<ParsedDeviceStatus>)
        requires
            old(self).wf(),
            old(self)@.len() < u64::MAX,
        ensures
            final(self).wf(),
            final(self).spec_id() == old(self).spec_id(),
            final(self).spec_listener_state() == old(self).spec_listener_state(),
            final(self).spec_listener_spawns() == old(self).spec_listener_spawns(),
            match DeviceStatus::spec_decode(data@) {
                Ok(status) => {
                    &&& final(self)@ == old(self)@.push(status)
                    &&& publish == if spec_latest(old(self)@) != Some(status) {
                        Some(spec_translate(status))
                    } else {
                        None::<ParsedDeviceStatus>
                    }
                },
                Err(_) => {
                    &&& final(self)@ == old(self)@
                    &&& publish is None
                },
            },
    {
        let status = match DeviceStatus::read_from(data.as_slice()) {
            Ok(status) => status,
            Err(_) => {
                return None;
            },
        };
        let prev = self.status_slot.send_replace(status);
        let changed = match prev {
            None => true,
            Some(p) => p != status,
        };
        if changed {
            Some(ParsedDeviceStatus::from(status))
        } else {
            None
        }
    }
}

} // verus!
