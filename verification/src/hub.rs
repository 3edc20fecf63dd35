//! The broadcast hub: holds the most recent published snapshots and fans
//! them out to any number of independently paced subscribers.
//!
//! Retention is bounded: once the buffer is full, publishing drops the
//! oldest retained snapshot, so a slow subscriber loses the oldest
//! undelivered snapshots and never stalls the publisher. A subscriber
//! starts at the publish count of the moment it subscribed, so it is
//! never handed anything published earlier.

use vstd::prelude::*;

use crate::plant::{DeviceState, PlantState};

verus! {

/// The single source of published snapshots.
pub struct BroadcastHub {
    /// The retained snapshots, oldest first; at most `capacity` of them.
    pub buffer: Vec<PlantState>,
    /// How many snapshots have been dropped from the front, i.e. the
    /// publish index of `buffer[0]`.
    pub dropped: u64,
    /// The retention bound.
    pub capacity: usize,
}

/// One observer's cursor into the publish stream.
pub struct Subscriber {
    /// The publish index this subscriber will try to read next.
    pub next: u64,
}

/// The publish index `recv` actually serves a subscriber whose cursor
/// stands at `next`: the cursor itself, or the oldest retained snapshot
/// if the cursor has been overrun.
pub open spec fn recv_index(hub: BroadcastHub, next: int) -> int {
    if next < hub.dropped {
        hub.dropped as int
    } else {
        next
    }
}

impl BroadcastHub {
    pub open spec fn wf(&self) -> bool {
        &&& 1 <= self.capacity
        &&& self.buffer@.len() <= self.capacity
        &&& self.dropped + self.buffer@.len() <= u64::MAX
        &&& self.buffer@.len() == 0 ==> self.dropped == 0
    }

    /// How many snapshots have ever been published.
    pub open spec fn total_published(&self) -> int {
        self.dropped + self.buffer@.len()
    }

    /// The devices of the snapshot with publish index `i`; meaningful for
    /// retained indices, `dropped <= i < total_published`.
    pub open spec fn snapshot_at(&self, i: int) -> Seq<DeviceState> {
        self.buffer@[i - self.dropped]@
    }

    pub fn new(capacity: usize) -> (hub: BroadcastHub)
        requires
            1 <= capacity,
        ensures
            hub.wf(),
            hub.capacity == capacity,
            hub.dropped == 0,
            hub.total_published() == 0,
    {
        BroadcastHub { buffer: Vec::new(), dropped: 0, capacity }
    }

    /// A new subscription: the observer will see exactly what is
    /// published from this moment on, and nothing from before.
    pub fn subscribe(&self) -> (subscriber: Subscriber)
        requires
            self.wf(),
        ensures
            subscriber.next == self.total_published(),
    {
        Subscriber { next: self.dropped + (self.buffer.len() as u64) }
    }

    /// Publishes one snapshot. Every retained snapshot keeps its publish
    /// index; if the buffer was full, the oldest retained one is dropped,
    /// so the publisher never blocks on slow consumers.
    pub fn publish(&mut self, snapshot: PlantState)
        requires
            old(self).wf(),
            old(self).total_published() < u64::MAX,
        ensures
            final(self).wf(),
            final(self).capacity == old(self).capacity,
            final(self).total_published() == old(self).total_published() + 1,
            final(self).snapshot_at(old(self).total_published()) == snapshot@,
            final(self).dropped == if old(self).buffer@.len() == old(self).capacity {
                old(self).dropped + 1
            } else {
                old(self).dropped as int
            },
            forall|i: int|
                final(self).dropped <= i < old(self).total_published()
                    ==> final(self).snapshot_at(i) == old(self).snapshot_at(i),
    {
        if self.buffer.len() == self.capacity {
            let _oldest = self.buffer.remove(0);
            self.dropped = self.dropped + 1;
        }
        self.buffer.push(snapshot);
    }

    /// Hands the subscriber the next snapshot it has not seen, if one has
    /// been published. A cursor overrun by the retention bound is skipped
    /// forward to the oldest retained snapshot: the lagging observer
    /// loses the oldest, never the newest.
    pub fn recv(&self, subscriber: &mut Subscriber) -> (snapshot: Option<PlantState>)
        requires
            self.wf(),
            old(subscriber).next <= self.total_published(),
        ensures
            snapshot is Some <==> old(subscriber).next < self.total_published(),
            match snapshot {
                None => final(subscriber).next == old(subscriber).next,
                Some(s) => {
                    let i = recv_index(*self, old(subscriber).next as int);
                    &&& final(subscriber).next == i + 1
                    &&& final(subscriber).next <= self.total_published()
                    &&& s@ == self.snapshot_at(i)
                    &&& old(subscriber).next <= i < self.total_published()
                    &&& self.total_published() - self.capacity <= i
                    &&& self.dropped <= i
                },
            },
    {
        let total: u64 = self.dropped + (self.buffer.len() as u64);
        if subscriber.next >= total {
            None
        } else {
            let start: u64 = if subscriber.next < self.dropped {
                self.dropped
            } else {
                subscriber.next
            };
            let index: usize = (start - self.dropped) as usize;
            proof {
                assert(self.buffer@.len() >= 1);
                assert(index < self.buffer@.len());
            }
            let snapshot = self.buffer[index].clone();
            subscriber.next = start + 1;
            Some(snapshot)
        }
    }
}

/// A snapshot served to a subscriber was published no earlier than the
/// subscription: a cursor that started at the publish count of the
/// subscription moment only ever moves forward, and `recv` never serves
/// an index below the cursor.
pub proof fn lemma_no_backfill(hub: BroadcastHub, next: int, subscribed_at: int)
    requires
        subscribed_at <= next,
    ensures
        recv_index(hub, next) >= subscribed_at,
{
}

/// Whatever a lagging subscriber missed, what it is served is one of the
/// `capacity` most recently published snapshots: the oldest are the ones
/// provably dropped.
pub proof fn lemma_lagging_subscriber_sees_recent(hub: BroadcastHub, next: int)
    requires
        hub.wf(),
    ensures
        recv_index(hub, next) >= hub.total_published() - hub.capacity,
        recv_index(hub, next) >= hub.dropped,
{
}

/// A subscriber that has kept up with retention is served exactly its
/// cursor: a fast observer receives every snapshot, in publish order.
pub proof fn lemma_fast_subscriber_sees_all(hub: BroadcastHub, next: int)
    requires
        hub.dropped <= next,
    ensures
        recv_index(hub, next) == next,
{
}

} // verus!
