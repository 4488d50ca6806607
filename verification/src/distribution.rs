//! Handing values between tasks: a broadcast of readings from one producer
//! to several consumers, each with its own cursor; a slot for a pending
//! configuration; and a slot that holds the latest controller status.
//!
//! None of the operations waits. A consumer that finds nothing new is told
//! so, and its task suspends until the producer has published again.

use vstd::prelude::*;
use crate::dht11::Reading;
use crate::temp_controller::{ControllerStatus, TempControllerConfig};

verus! {

/// A reading together with its sequence number. The first reading ever
/// published has number 1.
#[derive(Clone, Copy, Debug, PartialEq, Eq, Structural)]
pub struct Delivery {
    pub sequence: u64,
    pub reading: Reading,
}

/// A reading and its sequence number, as a mathematical value.
pub struct Stamped {
    pub sequence: nat,
    pub reading: Reading,
}

/// What a broadcast channel stands for.
pub struct BroadcastView {
    /// Every reading published so far, oldest first. The reading at index
    /// `i` has sequence number `i + 1`.
    pub history: Seq<Reading>,
    /// How many of the newest readings the channel retains.
    pub capacity: nat,
    /// For each consumer, the highest sequence number it has seen.
    pub cursors: Seq<nat>,
    /// How many consumers may subscribe.
    pub max_consumers: nat,
}

impl BroadcastView {
    /// Index in `history` of the oldest reading still retained.
    pub open spec fn oldest_kept(self) -> nat {
        if self.history.len() > self.capacity {
            (self.history.len() - self.capacity) as nat
        } else {
            0
        }
    }

    /// What a consumer that has seen everything up to `cursor` gets next:
    /// the oldest retained reading that is newer than its cursor.
    pub open spec fn next_for(self, cursor: nat) -> Option<Stamped> {
        let index = if cursor > self.oldest_kept() {
            cursor
        } else {
            self.oldest_kept()
        };
        if index < self.history.len() {
            Some(Stamped { sequence: index + 1, reading: self.history[index as int] })
        } else {
            None
        }
    }

    /// The newest reading, if one is retained.
    pub open spec fn newest(self) -> Option<Stamped> {
        if self.history.len() > 0 && self.capacity > 0 {
            Some(Stamped { sequence: self.history.len(), reading: self.history.last() })
        } else {
            None
        }
    }

    /// The same channel after `reading` has been published.
    pub open spec fn published(self, reading: Reading) -> BroadcastView {
        BroadcastView {
            history: self.history.push(reading),
            capacity: self.capacity,
            cursors: self.cursors,
            max_consumers: self.max_consumers,
        }
    }

    /// The same channel with the cursor of `consumer` moved to `sequence`.
    pub open spec fn seen(self, consumer: int, sequence: nat) -> BroadcastView {
        BroadcastView {
            history: self.history,
            capacity: self.capacity,
            cursors: self.cursors.update(consumer, sequence),
            max_consumers: self.max_consumers,
        }
    }

    /// The same channel with one more consumer, which has seen nothing yet.
    pub open spec fn joined(self) -> BroadcastView {
        BroadcastView {
            history: self.history,
            capacity: self.capacity,
            cursors: self.cursors.push(0),
            max_consumers: self.max_consumers,
        }
    }
}

/// The exec form of a stamped reading.
pub open spec fn delivered(d: Option<Delivery>) -> Option<Stamped> {
    match d {
        Some(d) => Some(Stamped { sequence: d.sequence as nat, reading: d.reading }),
        None => None,
    }
}

/// A single-producer broadcast of readings with bounded retention.
pub struct Broadcast {
    retained: Vec<Reading>,
    capacity: usize,
    published: u64,
    cursors: Vec<u64>,
    max_consumers: usize,
    history: Ghost<Seq<Reading>>,
}

impl View for Broadcast {
    type V = BroadcastView;

    closed spec fn view(&self) -> BroadcastView {
        BroadcastView {
            history: self.history@,
            capacity: self.capacity as nat,
            cursors: Seq::new(self.cursors@.len(), |i: int| self.cursors@[i] as nat),
            max_consumers: self.max_consumers as nat,
        }
    }
}

impl Broadcast {
    /// The channel's invariant: it retains exactly the newest readings, up to
    /// its capacity; no cursor is ahead of the newest sequence number; no
    /// more consumers have subscribed than may.
    pub closed spec fn wf(&self) -> bool {
        &&& self.published == self.history@.len()
        &&& self.retained@.len() == self.history@.len() - self@.oldest_kept()
        &&& self.retained@ == self.history@.skip(self@.oldest_kept() as int)
        &&& self.cursors@.len() <= self.max_consumers
        &&& forall|i: int| 0 <= i < self.cursors@.len() ==> self.cursors@[i] <= self.published
    }

    /// What `wf` says in terms of the view.
    pub proof fn lemma_wf_view(&self)
        requires
            self.wf(),
        ensures
            self@.history.len() <= u64::MAX,
            self@.capacity <= usize::MAX,
            self@.max_consumers <= usize::MAX,
            self@.cursors.len() <= self@.max_consumers,
            forall|i: int| 0 <= i < self@.cursors.len() ==> self@.cursors[i] <= self@.history.len(),
    {
    }

    /// An empty channel that retains the `capacity` newest readings and
    /// admits `max_consumers` consumers.
    pub fn new(capacity: usize, max_consumers: usize) -> (channel: Broadcast)
        ensures
            channel.wf(),
            channel@ == (BroadcastView {
                history: Seq::empty(),
                capacity: capacity as nat,
                cursors: Seq::empty(),
                max_consumers: max_consumers as nat,
            }),
    {
        let channel = Broadcast {
            retained: Vec::new(),
            capacity,
            published: 0,
            cursors: Vec::new(),
            max_consumers,
            history: Ghost(Seq::empty()),
        };
        assert(channel@.cursors =~= Seq::empty());
        assert(channel.retained@ =~= channel.history@.skip(0));
        channel
    }

    /// The sequence number of the newest reading; zero before the first.
    pub fn sequence(&self) -> (n: u64)
        requires
            self.wf(),
        ensures
            n == self@.history.len(),
    {
        self.published
    }

    /// How many consumers have subscribed.
    pub fn consumers(&self) -> (n: usize)
        requires
            self.wf(),
        ensures
            n == self@.cursors.len(),
    {
        self.cursors.len()
    }

    /// The highest sequence number that `consumer` has seen, if it is one.
    pub fn cursor(&self, consumer: usize) -> (c: Option<u64>)
        requires
            self.wf(),
        ensures
            c is Some <==> consumer < self@.cursors.len(),
            c matches Some(n) ==> n == self@.cursors[consumer as int],
    {
        if consumer < self.cursors.len() {
            Some(self.cursors[consumer])
        } else {
            None
        }
    }

    /// Publishes a reading. The producer never waits for a consumer: where
    /// the channel is full the oldest retained reading makes room.
    pub fn publish(&mut self, reading: Reading)
        requires
            old(self).wf(),
            old(self)@.history.len() < u64::MAX,
        ensures
            final(self).wf(),
            final(self)@ == old(self)@.published(reading),
    {
        let ghost before = self@;
        if self.capacity > 0 {
            if self.retained.len() == self.capacity {
                self.retained.remove(0);
            }
            self.retained.push(reading);
        }
        self.published = self.published + 1;
        self.history = Ghost(before.history.push(reading));
        proof {
            let after = self@;
            assert(after.cursors =~= before.cursors);
            assert(self.retained@ =~= self.history@.skip(after.oldest_kept() as int));
        }
    }

    /// Admits one more consumer, which has seen nothing yet, and returns its
    /// number; `None` when the channel has all the consumers it may have.
    pub fn subscribe(&mut self) -> (consumer: Option<usize>)
        requires
            old(self).wf(),
        ensures
            final(self).wf(),
            consumer is Some <==> old(self)@.cursors.len() < old(self)@.max_consumers,
            consumer matches Some(k) ==> k == old(self)@.cursors.len() && final(self)@ == old(
                self,
            )@.joined(),
            consumer is None ==> final(self)@ == old(self)@,
    {
        let ghost before = self@;
        if self.cursors.len() < self.max_consumers {
            let k = self.cursors.len();
            self.cursors.push(0);
            proof {
                assert(self@.cursors =~= before.cursors.push(0));
            }
            Some(k)
        } else {
            None
        }
    }

    /// Hands `consumer` the oldest retained reading that is newer than all it
    /// has seen, and moves its cursor there. `None`, with nothing changed,
    /// when there is no newer reading or `consumer` has not subscribed.
    pub fn try_next(&mut self, consumer: usize) -> (delivery: Option<Delivery>)
        requires
            old(self).wf(),
        ensures
            final(self).wf(),
            consumer >= old(self)@.cursors.len() ==> delivery is None && final(self)@ == old(
                self,
            )@,
            consumer < old(self)@.cursors.len() ==> {
                let next = old(self)@.next_for(old(self)@.cursors[consumer as int]);
                &&& delivered(delivery) == next
                &&& next is None ==> final(self)@ == old(self)@
                &&& next matches Some(s) ==> final(self)@ == old(self)@.seen(
                    consumer as int,
                    s.sequence,
                )
            },
    {
        let ghost before = self@;
        if consumer >= self.cursors.len() {
            return None;
        }
        let cursor = self.cursors[consumer];
        let oldest: u64 = self.published - self.retained.len() as u64;
        let index: u64 = if cursor > oldest {
            cursor
        } else {
            oldest
        };
        if index < self.published {
            let reading = self.retained[(index - oldest) as usize];
            self.cursors[consumer] = index + 1;
            proof {
                assert(self@.cursors =~= before.cursors.update(consumer as int, (index + 1) as nat));
            }
            Some(Delivery { sequence: index + 1, reading })
        } else {
            None
        }
    }

    /// Hands `consumer` the newest reading and marks everything as seen.
    /// `None`, with nothing changed, when nothing is retained or `consumer`
    /// has not subscribed.
    pub fn latest(&mut self, consumer: usize) -> (delivery: Option<Delivery>)
        requires
            old(self).wf(),
        ensures
            final(self).wf(),
            consumer >= old(self)@.cursors.len() ==> delivery is None && final(self)@ == old(
                self,
            )@,
            consumer < old(self)@.cursors.len() ==> {
                let newest = old(self)@.newest();
                &&& delivered(delivery) == newest
                &&& newest is None ==> final(self)@ == old(self)@
                &&& newest matches Some(s) ==> final(self)@ == old(self)@.seen(
                    consumer as int,
                    s.sequence,
                )
            },
    {
        let ghost before = self@;
        if consumer >= self.cursors.len() {
            return None;
        }
        let kept = self.retained.len();
        if kept > 0 {
            let reading = self.retained[kept - 1];
            self.cursors[consumer] = self.published;
            proof {
                assert(self@.cursors =~= before.cursors.update(
                    consumer as int,
                    self.published as nat,
                ));
            }
            Some(Delivery { sequence: self.published, reading })
        } else {
            None
        }
    }
}

/// A slot for one configuration that waits to be applied. A later write
/// replaces an earlier one that has not been drained.
pub struct ConfigSlot {
    pending: Option<TempControllerConfig>,
}

impl View for ConfigSlot {
    type V = Option<TempControllerConfig>;

    closed spec fn view(&self) -> Option<TempControllerConfig> {
        self.pending
    }
}

impl ConfigSlot {
    pub fn new() -> (slot: ConfigSlot)
        ensures
            slot@ is None,
    {
        ConfigSlot { pending: None }
    }

    /// Leaves `config` in the slot, in place of whatever waited there.
    pub fn push(&mut self, config: TempControllerConfig)
        ensures
            final(self)@ == Some(config),
    {
        self.pending = Some(config);
    }

    /// Takes the pending configuration out, leaving the slot empty.
    pub fn drain(&mut self) -> (config: Option<TempControllerConfig>)
        ensures
            config == old(self)@,
            final(self)@ is None,
    {
        self.pending.take()
    }

    pub fn is_empty(&self) -> (empty: bool)
        ensures
            empty == (self@ is None),
    {
        self.pending.is_none()
    }
}

/// A slot that holds the most recent controller status. Every write
/// replaces the previous value; reading leaves it in place.
pub struct StatusSlot {
    latest: Option<ControllerStatus>,
}

impl View for StatusSlot {
    type V = Option<ControllerStatus>;

    closed spec fn view(&self) -> Option<ControllerStatus> {
        self.latest
    }
}

impl StatusSlot {
    pub fn new() -> (slot: StatusSlot)
        ensures
            slot@ is None,
    {
        StatusSlot { latest: None }
    }

    /// Replaces the held status.
    pub fn publish(&mut self, status: ControllerStatus)
        ensures
            final(self)@ == Some(status),
    {
        self.latest = Some(status);
    }

    /// The most recent status; `None` until the first one is published.
    pub fn poll(&self) -> (status: Option<ControllerStatus>)
        ensures
            status == self@,
    {
        self.latest
    }
}

/// A consumer is only ever handed a reading that is newer than all it has
/// seen: the sequence number handed out lies above the cursor, and the
/// reading is the one that was published under that number.
pub proof fn lemma_next_is_newer(channel: BroadcastView, cursor: nat)
    ensures
        channel.next_for(cursor) matches Some(s) ==> {
            &&& s.sequence > cursor
            &&& s.sequence > channel.oldest_kept()
            &&& s.sequence <= channel.history.len()
            &&& s.reading == channel.history[s.sequence - 1]
        },
        channel.next_for(cursor) is None <==> cursor >= channel.history.len()
            || channel.capacity == 0,
{
}

/// Publishing only ever adds to the history: what was published stays
/// published, under the number it had.
pub proof fn lemma_publish_extends(channel: BroadcastView, reading: Reading)
    ensures
        channel.history.is_prefix_of(channel.published(reading).history),
        channel.published(reading).cursors == channel.cursors,
{
}

/// Successive deliveries to one consumer carry strictly increasing sequence
/// numbers, and the later one was published later. A consumer that had seen
/// everything up to `cursor` is handed `first` and its cursor moves to
/// `first.sequence`; whatever is published in between, the next reading it
/// is handed has a higher number and stands later in the history.
pub proof fn lemma_successive_deliveries_increase(
    before: BroadcastView,
    after: BroadcastView,
    cursor: nat,
)
    requires
        before.history.is_prefix_of(after.history),
    ensures
        before.next_for(cursor) matches Some(first) ==> (after.next_for(first.sequence) matches Some(
            second,
        ) ==> {
            &&& second.sequence > first.sequence
            &&& after.history[first.sequence - 1] == first.reading
            &&& after.history[second.sequence - 1] == second.reading
        }),
{
}

} // verus!
