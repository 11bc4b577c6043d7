//! Broadcast-with-replace slot: a single-writer, multi-reader "latest value"
//! cell. The slot holds one logical value; readers waiting for a change
//! always observe the most recent value at resume time, and updates that
//! arrive between a reader's observations are coalesced into the latest.
//!
//! The slot's view is the full sequence of writes so far; the laws below pin
//! the coalescing behaviour against that history.

use vstd::prelude::*;

use crate::proto::DeviceStatus;

verus! {

/// The most recent write in a history, if any.
pub open spec fn spec_latest(history: Seq<DeviceStatus>) -> Option<DeviceStatus> {
    if history.len() == 0 {
        None
    } else {
        Some(history.last())
    }
}

/// The latest-status slot of one session. Absent until the first decode.
pub struct StatusSlot {
    current: Option<DeviceStatus>,
    writes: u64,
    history: Ghost<Seq<DeviceStatus>>,
}

impl View for StatusSlot {
    type V = Seq<DeviceStatus>;

    /// The sequence of values written so far, oldest first.
    closed spec fn view(&self) -> Seq<DeviceStatus> {
        self.history@
    }
}

impl StatusSlot {
    /// The slot caches exactly the most recent write and counts the writes.
    pub closed spec fn wf(&self) -> bool {
        &&& self.writes == self.history@.len()
        &&& self.current == spec_latest(self.history@)
    }

    /// An empty slot: no value yet.
    pub fn new() -> (s: StatusSlot)
        ensures
            s.wf(),
            s@ == Seq::<DeviceStatus>::empty(),
    {
        StatusSlot { current: None, writes: 0, history: Ghost(Seq::empty()) }
    }

    /// Atomically replace the slot's value, returning the previous one.
    pub fn send_replace(&mut self, value: DeviceStatus) -> (prev: Option<DeviceStatus>)
        requires
            old(self).wf(),
            old(self)@.len() < u64::MAX,
        ensures
            final(self).wf(),
            final(self)@ == old(self)@.push(value),
            prev == spec_latest(old(self)@),
    {
        let prev = self.current;
        self.current = Some(value);
        self.writes = self.writes + 1;
        proof {
            self.history@ = self.history@.push(value);
        }
        prev
    }

    /// The most recent value, if any value has arrived yet.
    pub fn latest(&self) -> (r: Option<DeviceStatus>)
        requires
            self.wf(),
        ensures
            r == spec_latest(self@),
    {
        self.current
    }

    /// How many writes the slot has seen.
    pub fn write_count(&self) -> (r: u64)
        requires
            self.wf(),
        ensures
            r == self@.len(),
    {
        self.writes
    }

    /// A new reader; the slot's current value counts as already seen.
    pub fn subscribe(&self) -> (r: StatusReader)
        requires
            self.wf(),
        ensures
            r.spec_seen() == self@.len(),
    {
        StatusReader { seen: self.writes }
    }
}

/// One independent reader of a [`StatusSlot`]. Tracks how much of the write
/// history it has observed.
#[derive(Debug, Clone, Copy, PartialEq, Eq, Structural)]
pub struct StatusReader {
    seen: u64,
}

impl StatusReader {
    /// How many writes this reader has observed.
    pub closed spec fn spec_seen(&self) -> int {
        self.seen as int
    }

    /// A reader that has seen nothing, so the first poll observes whatever
    /// value the slot already holds.
    pub fn from_start() -> (r: StatusReader)
        ensures
            r.spec_seen() == 0,
    {
        StatusReader { seen: 0 }
    }

    /// Observe the slot once: if anything was written since this reader last
    /// looked, yield the most recent value and mark everything seen; the
    /// values in between are coalesced away. Yield nothing when the reader
    /// is up to date — an asynchronous caller suspends and polls again.
    pub fn poll_changed(&mut self, slot: &StatusSlot) -> (r: Option<DeviceStatus>)
        requires
            slot.wf(),
            old(self).spec_seen() <= slot@.len(),
        ensures
            final(self).spec_seen() == slot@.len(),
            old(self).spec_seen() < slot@.len() ==> r == spec_latest(slot@) && r is Some,
            old(self).spec_seen() == slot@.len() ==> r is None,
    {
        if self.seen < slot.write_count() {
            self.seen = slot.write_count();
            slot.latest()
        } else {
            None
        }
    }
}

/// The history a slot reaches after a sequence of writes, applied in order.
pub open spec fn spec_writes_after(
    history: Seq<DeviceStatus>,
    writes: Seq<DeviceStatus>,
) -> Seq<DeviceStatus>
    decreases writes.len(),
{
    if writes.len() == 0 {
        history
    } else {
        spec_writes_after(history.push(writes[0]), writes.drop_first())
    }
}

/// Writes accumulate in order and none is lost from the history: applying a
/// sequence of writes appends exactly that sequence.
pub proof fn lemma_writes_accumulate(history: Seq<DeviceStatus>, writes: Seq<DeviceStatus>)
    ensures
        spec_writes_after(history, writes) == history + writes,
    decreases writes.len(),
{
    if writes.len() == 0 {
        assert(spec_writes_after(history, writes) =~= history + writes);
    } else {
        lemma_writes_accumulate(history.push(writes[0]), writes.drop_first());
        assert(history.push(writes[0]) + writes.drop_first() =~= history + writes);
    }
}

/// Coalescing: for any burst of writes with no intervening reads, one
/// subsequent observation yields exactly the burst's final value — the
/// intermediate values are replaced, never queued.
pub proof fn lemma_burst_coalesces(history: Seq<DeviceStatus>, writes: Seq<DeviceStatus>)
    requires
        writes.len() > 0,
    ensures
        spec_latest(spec_writes_after(history, writes)) == Some(writes.last()),
{
    lemma_writes_accumulate(history, writes);
    assert((history + writes).len() > 0);
    assert((history + writes).last() == writes.last());
}

/// A reader that observes the slot once after each write misses nothing: the
/// observation after the write at position `i` yields exactly that write.
pub proof fn lemma_stepwise_reader_observes_each(
    history: Seq<DeviceStatus>,
    writes: Seq<DeviceStatus>,
    i: int,
)
    requires
        0 <= i < writes.len(),
    ensures
        spec_latest(spec_writes_after(history, writes.take(i + 1))) == Some(writes[i]),
{
    lemma_burst_coalesces(history, writes.take(i + 1));
    assert(writes.take(i + 1).last() == writes[i]);
}

} // verus!
