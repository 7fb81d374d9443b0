//! The channel substrate, modelled exactly: a bounded command queue with
//! backpressure (a full queue refuses, it never drops), and a broadcast
//! event bus that never blocks its producer — when its retained window is
//! full the oldest event is dropped and lagging subscribers observe a gap.

use vstd::prelude::*;
use crate::types::{Command, Event};

verus! {

/// Capacity of the command queue and retained capacity of the event bus.
pub const CHANNEL_CAPACITY: usize = 100;

/// `a + b`, stopping at the top of the type.
pub open spec fn sat_add(a: u64, b: u64) -> u64 {
    if a + b <= u64::MAX {
        (a + b) as u64
    } else {
        u64::MAX
    }
}

/// Observational equality of events: same variant, same numbers, same
/// texts, same object sequence.
pub open spec fn same_event(a: Event, b: Event) -> bool {
    match (a, b) {
        (Event::DeviceDiscovered(x), Event::DeviceDiscovered(y)) => x == y,
        (
            Event::DeviceObjectsDiscovered { device_id: i, objects: xs },
            Event::DeviceObjectsDiscovered { device_id: j, objects: ys },
        ) => i == j && xs@ == ys@,
        (
            Event::PointUpdate { device_id: i, object_id: x, value_bits: v },
            Event::PointUpdate { device_id: j, object_id: y, value_bits: w },
        ) => i == j && x@ == y@ && v == w,
        (Event::StatusMessage(x), Event::StatusMessage(y)) => x@ == y@,
        _ => false,
    }
}

/// What one receive attempt yields.
#[derive(Debug)]
pub enum BusRecv {
    /// The next event.
    Item(Event),
    /// The receiver lagged behind the retained window and skipped this many
    /// events; the next attempt reads the oldest retained one.
    Lagged(u64),
    /// Nothing new.
    Empty,
}

/// The broadcast event bus: the retained window of the most recent events,
/// and how many older ones have been evicted since the bus was made.
pub struct EventBus {
    pub buffer: Vec<Event>,
    pub evicted: u64,
}

/// A subscriber's position: how many events (read or skipped) lie behind it.
pub struct BusReceiver {
    pub cursor: u64,
}

impl EventBus {
    /// The retained window never exceeds the bus's capacity.
    pub open spec fn wf(self) -> bool {
        self.buffer@.len() <= CHANNEL_CAPACITY
    }

    /// Sequence number of the next event published.
    pub open spec fn next_seq(self) -> u64 {
        sat_add(self.evicted, self.buffer@.len() as u64)
    }

    /// A fresh, empty bus.
    pub fn new() -> (b: Self)
        ensures
            b.wf(),
            b.buffer@.len() == 0,
            b.evicted == 0,
    {
        EventBus { buffer: Vec::new(), evicted: 0 }
    }

    /// Publishes one event.  This never fails and never blocks: with the
    /// retained window full, the oldest event is evicted to make room, at
    /// the expense of subscribers that have not read it yet.
    pub fn publish(&mut self, e: Event)
        requires
            old(self).wf(),
        ensures
            final(self).wf(),
            old(self).buffer@.len() < CHANNEL_CAPACITY ==> final(self).buffer@ == old(self).buffer@.push(e) && final(self).evicted == old(self).evicted,
            old(self).buffer@.len() >= CHANNEL_CAPACITY ==> final(self).buffer@ == old(self).buffer@.skip(1).push(e) && final(self).evicted == sat_add(old(self).evicted, 1),
    {
        if self.buffer.len() >= CHANNEL_CAPACITY {
            self.buffer.remove(0);
            if self.evicted < u64::MAX {
                self.evicted = self.evicted + 1;
            }
        }
        self.buffer.push(e);
        proof {
            if old(self).buffer@.len() >= CHANNEL_CAPACITY {
                assert(self.buffer@ =~= old(self).buffer@.skip(1).push(e));
            }
        }
    }

    /// A new subscription.  A late subscriber sees only events published
    /// after it.
    pub fn subscribe(&self) -> (r: BusReceiver)
        ensures
            r.cursor == self.next_seq(),
    {
        let cursor = if self.buffer.len() as u64 <= u64::MAX - self.evicted {
            self.evicted + self.buffer.len() as u64
        } else {
            u64::MAX
        };
        BusReceiver { cursor }
    }
}

impl BusReceiver {
    /// One receive attempt against the bus's current state.  A receiver that
    /// fell behind the retained window gets told how much it missed and is
    /// moved to the oldest retained event — a gap, never a deadlock.
    pub fn recv(&mut self, bus: &EventBus) -> (r: BusRecv)
        requires
            bus.wf(),
        ensures
            old(self).cursor < bus.evicted ==> (r matches BusRecv::Lagged(n) && n == bus.evicted
                - old(self).cursor && final(self).cursor == bus.evicted),
            old(self).cursor >= bus.evicted && old(self).cursor - bus.evicted < bus.buffer@.len()
                ==> (r matches BusRecv::Item(e) && same_event(
                e,
                bus.buffer@[old(self).cursor - bus.evicted],
            ) && final(self).cursor == sat_add(old(self).cursor, 1)),
            old(self).cursor >= bus.evicted && old(self).cursor - bus.evicted >= bus.buffer@.len()
                ==> r is Empty && final(self).cursor == old(self).cursor,
    {
        if self.cursor < bus.evicted {
            let missed = bus.evicted - self.cursor;
            self.cursor = bus.evicted;
            BusRecv::Lagged(missed)
        } else {
            let offset = self.cursor - bus.evicted;
            if offset < bus.buffer.len() as u64 {
                let e = clone_event(&bus.buffer[offset as usize]);
                if self.cursor < u64::MAX {
                    self.cursor = self.cursor + 1;
                }
                BusRecv::Item(e)
            } else {
                BusRecv::Empty
            }
        }
    }
}

/// A field-for-field copy of an event.
pub fn clone_event(e: &Event) -> (r: Event)
    ensures
        same_event(r, *e),
{
    match e {
        Event::DeviceDiscovered(d) => Event::DeviceDiscovered(clone_device(d)),
        Event::DeviceObjectsDiscovered { device_id, objects } => {
            let mut copied: Vec<crate::types::BacnetObjectInfo> = Vec::new();
            let mut idx: usize = 0;
            while idx < objects.len()
                invariant
                    idx <= objects@.len(),
                    copied@.len() == idx,
                    forall|i: int| 0 <= i < idx ==> copied@[i] == objects@[i],
                decreases objects@.len() - idx,
            {
                let o = &objects[idx];
                copied.push(
                    crate::types::BacnetObjectInfo {
                        object_type: o.object_type,
                        instance: o.instance,
                        name: o.name.clone(),
                    },
                );
                idx += 1;
            }
            proof {
                assert(copied@ =~= objects@);
            }
            Event::DeviceObjectsDiscovered { device_id: *device_id, objects: copied }
        },
        Event::PointUpdate { device_id, object_id, value_bits } => Event::PointUpdate {
            device_id: *device_id,
            object_id: object_id.clone(),
            value_bits: *value_bits,
        },
        Event::StatusMessage(s) => Event::StatusMessage(s.clone()),
    }
}

/// A field-for-field copy of a device identity.
pub fn clone_device(d: &crate::types::BacnetDevice) -> (r: crate::types::BacnetDevice)
    ensures
        r == *d,
{
    crate::types::BacnetDevice {
        instance: d.instance,
        address: d.address.clone(),
        name: d.name.clone(),
    }
}

/// The bounded command queue: first in, first out, and a full queue refuses
/// new work instead of dropping old — the producer waits, nothing is lost.
pub struct CommandQueue {
    pub items: Vec<Command>,
    pub capacity: usize,
}

impl CommandQueue {
    /// The queue never holds more than its capacity.
    pub open spec fn wf(self) -> bool {
        self.items@.len() <= self.capacity
    }

    /// A fresh queue of the given capacity.
    pub fn new(capacity: usize) -> (q: Self)
        ensures
            q.wf(),
            q.items@.len() == 0,
            q.capacity == capacity,
    {
        CommandQueue { items: Vec::new(), capacity }
    }

    /// Accepts the command when there is room, in arrival order; refuses it,
    /// changing nothing, when the queue is full (the producer must wait and
    /// offer it again — backpressure, not loss).
    pub fn try_enqueue(&mut self, c: Command) -> (accepted: bool)
        requires
            old(self).wf(),
        ensures
            final(self).wf(),
            final(self).capacity == old(self).capacity,
            accepted == (old(self).items@.len() < old(self).capacity),
            accepted ==> final(self).items@ == old(self).items@.push(c),
            !accepted ==> final(self).items@ == old(self).items@,
    {
        if self.items.len() < self.capacity {
            self.items.push(c);
            true
        } else {
            false
        }
    }

    /// Hands out the oldest queued command: consumption in arrival order.
    pub fn dequeue(&mut self) -> (r: Option<Command>)
        requires
            old(self).wf(),
        ensures
            final(self).wf(),
            final(self).capacity == old(self).capacity,
            old(self).items@.len() == 0 ==> r is None && final(self).items@ == old(self).items@,
            old(self).items@.len() > 0 ==> (r matches Some(c) && c == old(self).items@[0] && final(self).items@ == old(self).items@.skip(1)),
    {
        if self.items.len() > 0 {
            let c = self.items.remove(0);
            proof {
                assert(self.items@ =~= old(self).items@.skip(1));
            }
            Some(c)
        } else {
            None
        }
    }

    /// How many commands wait.
    pub fn len(&self) -> (n: usize)
        ensures
            n == self.items@.len(),
    {
        self.items.len()
    }
}

} // verus!
