//! The peripheral delegate scope: attribute discovery, reads, writes,
//! notifications and the readiness gate.
//!
//! One value of [`PeripheralAsync`] owns every pending slot and topic of one
//! remote peripheral.  Discovery and write completions are one-shot,
//! keyed by the service, characteristic or descriptor the request concerns.
//! Characteristic value updates instead feed a per-characteristic broadcast
//! topic, created lazily on first subscription and collected again once an
//! update arrives with nobody subscribed.
//!
//! A read completion never delivers a cached value: the callback only
//! signals that the value is current, and what is published is exactly the
//! value present on the entity at the moment the callback fired, handed in
//! by the callback itself.

use vstd::prelude::*;

use crate::assoc::{
    assoc_keys_unique, assoc_map, lemma_assoc_props, lemma_assoc_push, lemma_assoc_remove,
};
use crate::error::Error;
use crate::ids::{CharacteristicId, CharacteristicWriteType, DescriptorId, PeripheralId, ServiceId};
use crate::pending::{PendingSlots, Registration};
use crate::relay::{BroadcastTopic, Dup, TopicRecv, WatchTopic, TOPIC_CAPACITY};
use crate::util::{broadcast, dup_vec, watch};

verus! {

/// The outcome a delegate callback reports for a unit-valued operation.
#[derive(Clone, Copy, Debug, PartialEq, Eq, Structural)]
pub enum Outcome {
    /// The operation succeeded.
    Done,
    /// The operation failed with the platform's error, kept whole.
    Failed(Error),
}

impl DeepView for Outcome {
    type V = Outcome;

    open spec fn deep_view(&self) -> Outcome {
        *self
    }
}

impl Dup for Outcome {
    fn dup(&self) -> (r: Outcome) {
        *self
    }
}

/// One reading of the peripheral's signal strength.
#[derive(Clone, Copy, Debug, PartialEq, Eq, Structural)]
pub enum RssiUpdate {
    /// The signal strength that was read.
    Rssi(i16),
    /// The read failed.
    Failed(Error),
}

impl DeepView for RssiUpdate {
    type V = RssiUpdate;

    open spec fn deep_view(&self) -> RssiUpdate {
        *self
    }
}

impl Dup for RssiUpdate {
    fn dup(&self) -> (r: RssiUpdate) {
        *self
    }
}

/// The outcome of a notification-state toggle.
#[derive(Clone, Copy, Debug, PartialEq, Eq, Structural)]
pub enum NotifyUpdate {
    /// The toggle completed; the payload is whether the characteristic is
    /// notifying now, read from it when the callback fired.
    Notifying(bool),
    /// The toggle failed.
    Failed(Error),
}

/// One update of a characteristic or descriptor value.
#[derive(Clone, Debug, PartialEq, Eq)]
pub enum ValueUpdate {
    /// The value is current; the payload is the value present on the entity
    /// when the callback fired.
    Value(Vec<u8>),
    /// The update failed.
    Failed(Error),
}

/// The abstract value of a [`ValueUpdate`].
pub enum ValueUpdateView {
    Value(Seq<u8>),
    Failed(Error),
}

impl DeepView for ValueUpdate {
    type V = ValueUpdateView;

    open spec fn deep_view(&self) -> ValueUpdateView {
        match self {
            ValueUpdate::Value(v) => ValueUpdateView::Value(v.deep_view()),
            ValueUpdate::Failed(e) => ValueUpdateView::Failed(*e),
        }
    }
}

impl Dup for ValueUpdate {
    fn dup(&self) -> (r: ValueUpdate) {
        match self {
            ValueUpdate::Value(v) => ValueUpdate::Value(dup_vec(v)),
            ValueUpdate::Failed(e) => ValueUpdate::Failed(*e),
        }
    }
}

impl Dup for Option<String> {
    fn dup(&self) -> (r: Option<String>) {
        match self {
            Some(s) => Some(s.clone()),
            None => None,
        }
    }
}

impl Dup for Vec<ServiceId> {
    fn dup(&self) -> (r: Vec<ServiceId>) {
        dup_vec(self)
    }
}

/// What a value-update callback did with its event.
#[derive(Clone, Copy, Debug, PartialEq, Eq, Structural)]
pub enum UpdateDisposition {
    /// The update was published to the characteristic's topic.
    Published,
    /// The topic had no subscribers left: it was collected instead, and the
    /// update was dropped.
    Collected,
    /// No topic was ever created for this characteristic; nobody observes
    /// it and nothing happened.
    NoTopic,
}

/// The per-characteristic value-update topics, created lazily on first
/// subscription and collected on the first update that finds no
/// subscribers.
pub struct ValueTopics {
    entries: Vec<(u64, BroadcastTopic<ValueUpdate>)>,
}

impl ValueTopics {
    /// The live topics, keyed by characteristic identity.
    pub closed spec fn topics(self) -> Map<u64, BroadcastTopic<ValueUpdate>> {
        assoc_map(self.entries@)
    }

    pub closed spec fn wf(self) -> bool {
        &&& assoc_keys_unique(self.entries@)
        &&& forall|i: int|
            0 <= i < self.entries@.len() ==> (#[trigger] self.entries@[i]).1.wf()
                && self.entries@[i].1.capacity() == TOPIC_CAPACITY
    }

    /// Every live topic is well-formed, with the scope's capacity.
    pub proof fn lemma_topics_wf(self)
        requires
            self.wf(),
        ensures
            forall|c: u64|
                self.topics().contains_key(c) ==> (#[trigger] self.topics()[c]).wf()
                    && self.topics()[c].capacity() == TOPIC_CAPACITY,
    {
        lemma_assoc_props(self.entries@);
        assert forall|c: u64| self.topics().contains_key(c) implies (
        #[trigger] self.topics()[c]).wf() && self.topics()[c].capacity() == TOPIC_CAPACITY by {
            let i = choose|i: int| 0 <= i < self.entries@.len() && (#[trigger] self.entries@[i]).0
                == c;
            assert(self.entries@[i].1.wf());
        }
    }

    /// No topics yet.
    pub fn new() -> (r: Self)
        ensures
            r.wf(),
            r.topics() == Map::<u64, BroadcastTopic<ValueUpdate>>::empty(),
    {
        ValueTopics { entries: Vec::new() }
    }

    fn find(&self, c: u64) -> (r: Option<usize>)
        ensures
            match r {
                Some(i) => i < self.entries@.len() && self.entries@[i as int].0 == c,
                None => forall|j: int|
                    0 <= j < self.entries@.len() ==> (#[trigger] self.entries@[j]).0 != c,
            },
    {
        let n = self.entries.len();
        let mut i: usize = 0;
        while i < n
            invariant
                n == self.entries@.len(),
                i <= n,
                forall|j: int| 0 <= j < i ==> (#[trigger] self.entries@[j]).0 != c,
            decreases n - i,
        {
            if self.entries[i].0 == c {
                return Some(i);
            }
            i = i + 1;
        }
        None
    }

    /// Subscribes to the topic of one characteristic, creating the topic on
    /// first subscription; the receiver starts at "now".
    pub fn subscribe(&mut self, c: u64) -> (rid: usize)
        requires
            old(self).wf(),
            old(self).topics().contains_key(c) ==> old(self).topics()[c].receivers() < usize::MAX,
        ensures
            final(self).wf(),
            final(self).topics().contains_key(c),
            final(self).topics() == old(self).topics().insert(c, final(self).topics()[c]),
            ({
                let t = final(self).topics()[c];
                if old(self).topics().contains_key(c) {
                    let t0 = old(self).topics()[c];
                    &&& rid == t0.receivers()
                    &&& t.history() == t0.history()
                    &&& t.receivers() == t0.receivers() + 1
                    &&& t.active_receivers() == t0.active_receivers() + 1
                    &&& t.capacity() == t0.capacity()
                    &&& t.base_index() == t0.base_index()
                    &&& t.receiver_active(rid as int)
                    &&& t.cursor_at(rid as int) == t0.history().len()
                    &&& t.cursor_start(rid as int) == t0.history().len()
                    &&& forall|r: int|
                        0 <= r < t0.receivers() ==> (#[trigger] t.receiver_active(r))
                            == t0.receiver_active(r)
                    &&& forall|r: int|
                        0 <= r < t0.receivers() ==> (#[trigger] t.cursor_at(r))
                            == t0.cursor_at(r)
                    &&& forall|r: int|
                        0 <= r < t0.receivers() ==> (#[trigger] t.cursor_start(r))
                            == t0.cursor_start(r)
                    &&& forall|r: int|
                        0 <= r < t0.receivers() ==> (#[trigger] t.cursor_got(r))
                            == t0.cursor_got(r)
                } else {
                    &&& rid == 0
                    &&& t.history() == Seq::<ValueUpdate>::empty()
                    &&& t.receivers() == 1
                    &&& t.active_receivers() == 1
                    &&& t.capacity() == TOPIC_CAPACITY
                    &&& t.base_index() == 0
                    &&& t.receiver_active(0)
                    &&& t.cursor_at(0) == 0
                    &&& t.cursor_start(0) == 0
                }
            }),
    {
        proof {
            lemma_assoc_props(self.entries@);
        }
        match self.find(c) {
            Some(i) => {
                proof {
                    lemma_assoc_remove(self.entries@, i as int);
                }
                let pair = self.entries.remove(i);
                let k = pair.0;
                let mut t = pair.1;
                let rid = t.new_receiver();
                proof {
                    lemma_assoc_push(self.entries@, k, t);
                }
                self.entries.push((k, t));
                proof {
                    assert(assoc_keys_unique(self.entries@)) by {
                        assert(forall|j: int|
                            0 <= j < self.entries@.len() - 1 ==> (#[trigger] self.entries@[j]).0
                                != c);
                    }
                    assert(final(self).topics() =~= old(self).topics().insert(
                        c,
                        final(self).topics()[c],
                    ));
                }
                rid
            },
            None => {
                let mut t: BroadcastTopic<ValueUpdate> = broadcast(TOPIC_CAPACITY);
                let rid = t.new_receiver();
                proof {
                    lemma_assoc_push(self.entries@, c, t);
                }
                self.entries.push((c, t));
                proof {
                    assert(assoc_keys_unique(self.entries@)) by {
                        assert(forall|j: int|
                            0 <= j < self.entries@.len() - 1 ==> (#[trigger] self.entries@[j]).0
                                != c);
                    }
                    assert(final(self).topics() =~= old(self).topics().insert(
                        c,
                        final(self).topics()[c],
                    ));
                }
                rid
            },
        }
    }

    /// A subscriber abandons the topic of one characteristic.
    pub fn unsubscribe(&mut self, c: u64, rid: usize)
        requires
            old(self).wf(),
            old(self).topics().contains_key(c),
            rid < old(self).topics()[c].receivers(),
            old(self).topics()[c].receiver_active(rid as int),
        ensures
            final(self).wf(),
            final(self).topics() == old(self).topics().insert(c, final(self).topics()[c]),
            ({
                let t0 = old(self).topics()[c];
                let t = final(self).topics()[c];
                &&& t.history() == t0.history()
                &&& t.receivers() == t0.receivers()
                &&& t.active_receivers() == t0.active_receivers() - 1
                &&& t.capacity() == t0.capacity()
                &&& !t.receiver_active(rid as int)
            }),
    {
        proof {
            lemma_assoc_props(self.entries@);
        }
        match self.find(c) {
            Some(i) => {
                proof {
                    lemma_assoc_remove(self.entries@, i as int);
                }
                let pair = self.entries.remove(i);
                let k = pair.0;
                let mut t = pair.1;
                t.close_receiver(rid);
                proof {
                    lemma_assoc_push(self.entries@, k, t);
                }
                self.entries.push((k, t));
                proof {
                    assert(assoc_keys_unique(self.entries@)) by {
                        assert(forall|j: int|
                            0 <= j < self.entries@.len() - 1 ==> (#[trigger] self.entries@[j]).0
                                != c);
                    }
                    assert(final(self).topics() =~= old(self).topics().insert(
                        c,
                        final(self).topics()[c],
                    ));
                }
            },
            None => {
                proof {
                    assert(false);
                }
            },
        }
    }

    /// Delivers one update to the topic of one characteristic: published to
    /// its subscribers, or, when the last subscriber is gone, the topic
    /// itself is collected and the update dropped.  With no topic, no one
    /// ever subscribed and nothing happens.
    pub fn publish_update(&mut self, c: u64, v: ValueUpdate) -> (r: UpdateDisposition)
        requires
            old(self).wf(),
            old(self).topics().contains_key(c) ==> old(self).topics()[c].history().len()
                < u64::MAX,
        ensures
            final(self).wf(),
            match r {
                UpdateDisposition::Published => {
                    &&& old(self).topics().contains_key(c)
                    &&& old(self).topics()[c].active_receivers() > 0
                    &&& final(self).topics() == old(self).topics().insert(
                        c,
                        final(self).topics()[c],
                    )
                    &&& ({
                        let t0 = old(self).topics()[c];
                        let t = final(self).topics()[c];
                        &&& t.history() == t0.history().push(v)
                        &&& t.receivers() == t0.receivers()
                        &&& t.active_receivers() == t0.active_receivers()
                        &&& t.capacity() == t0.capacity()
                        &&& t.base_index() == if t0.history().len() - t0.base_index()
                            == t0.capacity() {
                            t0.base_index() + 1
                        } else {
                            t0.base_index()
                        }
                        &&& forall|q: int|
                            0 <= q < t0.receivers() ==> (#[trigger] t.receiver_active(q))
                                == t0.receiver_active(q)
                        &&& forall|q: int|
                            0 <= q < t0.receivers() ==> (#[trigger] t.cursor_at(q))
                                == t0.cursor_at(q)
                        &&& forall|q: int|
                            0 <= q < t0.receivers() ==> (#[trigger] t.cursor_start(q))
                                == t0.cursor_start(q)
                        &&& forall|q: int|
                            0 <= q < t0.receivers() ==> (#[trigger] t.cursor_got(q))
                                == t0.cursor_got(q)
                    })
                },
                UpdateDisposition::Collected => {
                    &&& old(self).topics().contains_key(c)
                    &&& old(self).topics()[c].active_receivers() == 0
                    &&& final(self).topics() == old(self).topics().remove(c)
                },
                UpdateDisposition::NoTopic => {
                    &&& !old(self).topics().contains_key(c)
                    &&& *final(self) == *old(self)
                },
            },
    {
        proof {
            lemma_assoc_props(self.entries@);
        }
        match self.find(c) {
            Some(i) => {
                proof {
                    lemma_assoc_remove(self.entries@, i as int);
                }
                let pair = self.entries.remove(i);
                let k = pair.0;
                let mut t = pair.1;
                if t.receiver_count() == 0 {
                    UpdateDisposition::Collected
                } else {
                    t.try_broadcast(v);
                    proof {
                        lemma_assoc_push(self.entries@, k, t);
                    }
                    self.entries.push((k, t));
                    proof {
                        assert(assoc_keys_unique(self.entries@)) by {
                            assert(forall|j: int|
                                0 <= j < self.entries@.len() - 1 ==> (
                                #[trigger] self.entries@[j]).0 != c);
                        }
                        assert(final(self).topics() =~= old(self).topics().insert(
                            c,
                            final(self).topics()[c],
                        ));
                    }
                    UpdateDisposition::Published
                }
            },
            None => UpdateDisposition::NoTopic,
        }
    }

    /// Receives the next update for one receiver of one characteristic's
    /// topic.
    pub fn receive(&mut self, c: u64, rid: usize) -> (r: TopicRecv<ValueUpdate>)
        requires
            old(self).wf(),
            old(self).topics().contains_key(c),
            rid < old(self).topics()[c].receivers(),
            old(self).topics()[c].receiver_active(rid as int),
        ensures
            final(self).wf(),
            final(self).topics().contains_key(c),
            final(self).topics() == old(self).topics().insert(c, final(self).topics()[c]),
            ({
                let t0 = old(self).topics()[c];
                let t = final(self).topics()[c];
                &&& t.history() == t0.history()
                &&& t.receivers() == t0.receivers()
                &&& t.active_receivers() == t0.active_receivers()
                &&& t.capacity() == t0.capacity()
                &&& t.base_index() == t0.base_index()
                &&& t.receiver_active(rid as int)
                &&& forall|q: int|
                    0 <= q < t0.receivers() && q != rid ==> (#[trigger] t.receiver_active(q))
                        == t0.receiver_active(q)
                &&& forall|q: int|
                    0 <= q < t0.receivers() && q != rid ==> (#[trigger] t.cursor_at(q))
                        == t0.cursor_at(q)
                &&& forall|q: int|
                    0 <= q < t0.receivers() && q != rid ==> (#[trigger] t.cursor_start(q))
                        == t0.cursor_start(q)
                &&& forall|q: int|
                    0 <= q < t0.receivers() && q != rid ==> (#[trigger] t.cursor_got(q))
                        == t0.cursor_got(q)
                &&& match r {
                    TopicRecv::Item(v) => {
                        &&& t0.base_index() <= t0.cursor_at(rid as int) < t0.history().len()
                        &&& v.deep_view() == t0.history()[t0.cursor_at(rid as int)].deep_view()
                        &&& t.cursor_at(rid as int) == t0.cursor_at(rid as int) + 1
                    },
                    TopicRecv::Lagged => {
                        &&& t0.cursor_at(rid as int) < t0.base_index()
                        &&& t.cursor_at(rid as int) == t0.base_index()
                        &&& t.cursor_start(rid as int) == t0.base_index()
                    },
                    TopicRecv::Pending => {
                        &&& t0.cursor_at(rid as int) == t0.history().len()
                        &&& t.cursor_at(rid as int) == t0.cursor_at(rid as int)
                    },
                }
            }),
    {
        proof {
            lemma_assoc_props(self.entries@);
        }
        match self.find(c) {
            Some(i) => {
                proof {
                    lemma_assoc_remove(self.entries@, i as int);
                }
                let pair = self.entries.remove(i);
                let k = pair.0;
                let mut t = pair.1;
                let r = t.recv(rid);
                proof {
                    lemma_assoc_push(self.entries@, k, t);
                }
                self.entries.push((k, t));
                proof {
                    assert(assoc_keys_unique(self.entries@)) by {
                        assert(forall|j: int|
                            0 <= j < self.entries@.len() - 1 ==> (#[trigger] self.entries@[j]).0
                                != c);
                    }
                    assert(final(self).topics() =~= old(self).topics().insert(
                        c,
                        final(self).topics()[c],
                    ));
                }
                r
            },
            None => {
                proof {
                    assert(false);
                }
                TopicRecv::Pending
            },
        }
    }
}


/// A write request in flight: the bytes and write type the imperative call
/// carries, untouched, and the registration the caller awaits.
pub struct WriteRequest {
    /// The bytes handed to the platform, untouched.
    pub data: Vec<u8>,
    /// How the platform writes them.
    pub write_type: CharacteristicWriteType,
    /// The one-shot registration keyed by the written entity.
    pub registration: Registration,
}

/// A descriptor write request in flight.
pub struct DescriptorWriteRequest {
    /// The bytes handed to the platform, untouched.
    pub data: Vec<u8>,
    /// The one-shot registration keyed by the descriptor.
    pub registration: Registration,
}

/// A notification-toggle request in flight.
pub struct SetNotifyRequest {
    /// The state handed to the platform, untouched.
    pub notify: bool,
    /// The one-shot registration keyed by the characteristic.
    pub registration: Registration,
}

/// A channel-open request in flight.
pub struct L2capRequest {
    /// The port the imperative open call names, untouched.
    pub psm: u16,
    /// The single-slot registration.
    pub registration: Registration,
}

/// How the write-without-response readiness gate resolved.
pub enum ReadyGate {
    /// Capacity is available right now: return without subscribing.
    Ready,
    /// Await one readiness event under this watch receiver; a readiness
    /// value retained from before the subscription is already pending on
    /// it, so a signal between the check and the subscription is not lost.
    Await { rid: usize },
}

/// The correlation registry of one remote peripheral.
pub struct PeripheralAsync {
    /// The peripheral's stable identity.
    pub id: PeripheralId,
    /// The latest name of the peripheral.
    pub name_updates: WatchTopic<Option<String>>,
    /// Service-invalidation events.
    pub services_changed: BroadcastTopic<Vec<ServiceId>>,
    /// The latest signal-strength reading.
    pub rssi_updates: WatchTopic<RssiUpdate>,
    /// The latest service-discovery outcome.
    pub service_discovery: WatchTopic<Outcome>,
    /// Pending included-service discoveries, keyed by service.
    pub included_service_discovery: PendingSlots,
    /// Pending characteristic discoveries, keyed by service.
    pub characteristic_discovery: PendingSlots,
    /// Pending descriptor discoveries, keyed by characteristic.
    pub descriptor_discovery: PendingSlots,
    /// Per-characteristic value-update topics.
    pub characteristic_value_updates: ValueTopics,
    /// Pending notification-state toggles, keyed by characteristic.
    pub notification_updates: PendingSlots,
    /// Pending characteristic writes, keyed by characteristic.
    pub characteristic_writes: PendingSlots,
    /// Pending descriptor reads, keyed by descriptor.
    pub descriptor_value_updates: PendingSlots,
    /// Pending descriptor writes, keyed by descriptor.
    pub descriptor_writes: PendingSlots,
    /// The write-without-response readiness signal.
    pub ready_to_send_write_without_response: WatchTopic<()>,
    /// The single pending channel-open slot, if a request is in flight.
    pub l2cap_channel_opened: Option<u64>,
    /// The next channel-open ticket; the pending one, if any, is below it.
    pub l2cap_next_ticket: u64,
}

/// The payload a value-update callback publishes or fulfils: on success,
/// exactly the value present on the entity when the callback fired; on
/// failure, the platform's error, untouched.
pub open spec fn spec_update_payload(result: Outcome, value_now: Vec<u8>) -> ValueUpdate {
    match result {
        Outcome::Done => ValueUpdate::Value(value_now),
        Outcome::Failed(e) => ValueUpdate::Failed(e),
    }
}

impl PeripheralAsync {
    pub open spec fn wf(self) -> bool {
        &&& self.name_updates.wf()
        &&& self.services_changed.wf()
        &&& self.rssi_updates.wf()
        &&& self.service_discovery.wf()
        &&& self.included_service_discovery.wf()
        &&& self.characteristic_discovery.wf()
        &&& self.descriptor_discovery.wf()
        &&& self.characteristic_value_updates.wf()
        &&& self.notification_updates.wf()
        &&& self.characteristic_writes.wf()
        &&& self.descriptor_value_updates.wf()
        &&& self.descriptor_writes.wf()
        &&& self.ready_to_send_write_without_response.wf()
        &&& match self.l2cap_channel_opened {
            Some(t) => t < self.l2cap_next_ticket,
            None => true,
        }
    }

    /// A fresh scope for one peripheral: all maps empty, all topics without
    /// history, no channel-open pending.
    pub fn new(id: PeripheralId) -> (r: Self)
        ensures
            r.wf(),
            r.id == id,
            r.name_updates.history() == Seq::<Option<String>>::empty(),
            r.name_updates.receiver_count() == 0,
            r.services_changed.history() == Seq::<Vec<ServiceId>>::empty(),
            r.services_changed.receivers() == 0,
            r.services_changed.capacity() == TOPIC_CAPACITY,
            r.services_changed.base_index() == 0,
            r.rssi_updates.history() == Seq::<RssiUpdate>::empty(),
            r.rssi_updates.receiver_count() == 0,
            r.service_discovery.history() == Seq::<Outcome>::empty(),
            r.service_discovery.receiver_count() == 0,
            r.included_service_discovery.slots() == Map::<u128, u64>::empty(),
            r.characteristic_discovery.slots() == Map::<u128, u64>::empty(),
            r.descriptor_discovery.slots() == Map::<u128, u64>::empty(),
            r.characteristic_value_updates.topics() == Map::<
                u64,
                BroadcastTopic<ValueUpdate>,
            >::empty(),
            r.notification_updates.slots() == Map::<u128, u64>::empty(),
            r.characteristic_writes.slots() == Map::<u128, u64>::empty(),
            r.descriptor_value_updates.slots() == Map::<u128, u64>::empty(),
            r.descriptor_writes.slots() == Map::<u128, u64>::empty(),
            r.ready_to_send_write_without_response.history() == Seq::<()>::empty(),
            r.ready_to_send_write_without_response.receiver_count() == 0,
            r.l2cap_channel_opened == None::<u64>,
            r.l2cap_next_ticket == 0,
    {
        PeripheralAsync {
            id,
            name_updates: watch(),
            services_changed: broadcast(TOPIC_CAPACITY),
            rssi_updates: watch(),
            service_discovery: watch(),
            included_service_discovery: PendingSlots::new(),
            characteristic_discovery: PendingSlots::new(),
            descriptor_discovery: PendingSlots::new(),
            characteristic_value_updates: ValueTopics::new(),
            notification_updates: PendingSlots::new(),
            characteristic_writes: PendingSlots::new(),
            descriptor_value_updates: PendingSlots::new(),
            descriptor_writes: PendingSlots::new(),
            ready_to_send_write_without_response: watch(),
            l2cap_channel_opened: None,
            l2cap_next_ticket: 0,
        }
    }

    /// The peripheral's name changed: retain the new name as the latest
    /// value.
    pub fn did_update_name(&mut self, name: Option<String>)
        requires
            old(self).wf(),
            old(self).name_updates.history().len() < u64::MAX,
        ensures
            final(self).wf(),
            final(self).name_updates.history() == old(self).name_updates.history().push(name),
            final(self).name_updates.receiver_count() == old(self).name_updates.receiver_count(),
            forall|r: int|
                0 <= r < old(self).name_updates.receiver_count() ==> (#[trigger] final(self).name_updates.receiver_seen(r)) == old(self).name_updates.receiver_seen(r),
            (*final(self) == PeripheralAsync {
                name_updates: final(self).name_updates,
                ..*old(self)
            }),
    {
        self.name_updates.try_broadcast(name);
    }

    /// Subscribes to name updates; the latest name, if any was published,
    /// is immediately pending.
    pub fn name_updates(&mut self) -> (rid: usize)
        requires
            old(self).wf(),
        ensures
            final(self).wf(),
            rid == old(self).name_updates.receiver_count(),
            final(self).name_updates.receiver_count() == old(self).name_updates.receiver_count()
                + 1,
            final(self).name_updates.history() == old(self).name_updates.history(),
            final(self).name_updates.receiver_seen(rid as int) == if old(self).name_updates.history().len() > 0 {
                old(self).name_updates.history().len() - 1
            } else {
                0
            },
            (*final(self) == PeripheralAsync {
                name_updates: final(self).name_updates,
                ..*old(self)
            }),
    {
        self.name_updates.new_receiver()
    }

    /// Some services were invalidated: publish them to every subscriber.
    pub fn did_modify_services(&mut self, invalidated_services: Vec<ServiceId>)
        requires
            old(self).wf(),
            old(self).services_changed.history().len() < u64::MAX,
        ensures
            final(self).wf(),
            final(self).services_changed.history() == old(self).services_changed.history().push(
                invalidated_services,
            ),
            final(self).services_changed.receivers() == old(self).services_changed.receivers(),
            final(self).services_changed.active_receivers() == old(self).services_changed.active_receivers(),
            final(self).services_changed.base_index() == if old(self).services_changed.history().len() - old(
                self,
            ).services_changed.base_index() == old(self).services_changed.capacity() {
                old(self).services_changed.base_index() + 1
            } else {
                old(self).services_changed.base_index()
            },
            forall|r: int|
                0 <= r < old(self).services_changed.receivers() ==> (#[trigger] final(self).services_changed.receiver_active(r)) == old(self).services_changed.receiver_active(r),
            forall|r: int|
                0 <= r < old(self).services_changed.receivers() ==> (#[trigger] final(self).services_changed.cursor_at(r)) == old(self).services_changed.cursor_at(r),
            forall|r: int|
                0 <= r < old(self).services_changed.receivers() ==> (#[trigger] final(self).services_changed.cursor_start(r)) == old(self).services_changed.cursor_start(r),
            forall|r: int|
                0 <= r < old(self).services_changed.receivers() ==> (#[trigger] final(self).services_changed.cursor_got(r)) == old(self).services_changed.cursor_got(r),
            (*final(self) == PeripheralAsync {
                services_changed: final(self).services_changed,
                ..*old(self)
            }),
    {
        self.services_changed.try_broadcast(invalidated_services);
    }

    /// Subscribes to service-invalidation events, starting at "now".
    pub fn services_changed(&mut self) -> (rid: usize)
        requires
            old(self).wf(),
            old(self).services_changed.receivers() < usize::MAX,
        ensures
            final(self).wf(),
            rid == old(self).services_changed.receivers(),
            final(self).services_changed.receivers() == old(self).services_changed.receivers()
                + 1,
            final(self).services_changed.history() == old(self).services_changed.history(),
            final(self).services_changed.receiver_active(rid as int),
            final(self).services_changed.cursor_at(rid as int) == old(self).services_changed.history().len(),
            (*final(self) == PeripheralAsync {
                services_changed: final(self).services_changed,
                ..*old(self)
            }),
    {
        self.services_changed.new_receiver()
    }

    /// The peripheral's signal strength was read: retain the reading, or
    /// the failure, as the latest value.
    pub fn did_read_rssi(&mut self, rssi: RssiUpdate)
        requires
            old(self).wf(),
            old(self).rssi_updates.history().len() < u64::MAX,
        ensures
            final(self).wf(),
            final(self).rssi_updates.history() == old(self).rssi_updates.history().push(rssi),
            final(self).rssi_updates.receiver_count() == old(self).rssi_updates.receiver_count(),
            forall|r: int|
                0 <= r < old(self).rssi_updates.receiver_count() ==> (#[trigger] final(self).rssi_updates.receiver_seen(r)) == old(self).rssi_updates.receiver_seen(r),
            (*final(self) == PeripheralAsync {
                rssi_updates: final(self).rssi_updates,
                ..*old(self)
            }),
    {
        self.rssi_updates.try_broadcast(rssi);
    }

    /// Subscribes to signal-strength readings.
    pub fn rssi_updates(&mut self) -> (rid: usize)
        requires
            old(self).wf(),
        ensures
            final(self).wf(),
            rid == old(self).rssi_updates.receiver_count(),
            final(self).rssi_updates.receiver_count() == old(self).rssi_updates.receiver_count()
                + 1,
            final(self).rssi_updates.history() == old(self).rssi_updates.history(),
            final(self).rssi_updates.receiver_seen(rid as int) == if old(self).rssi_updates.history().len() > 0 {
                old(self).rssi_updates.history().len() - 1
            } else {
                0
            },
            (*final(self) == PeripheralAsync {
                rssi_updates: final(self).rssi_updates,
                ..*old(self)
            }),
    {
        self.rssi_updates.new_receiver()
    }

    /// Begins reading the peripheral's signal strength: subscribe, then
    /// issue the imperative read call and await one reading.
    pub fn read_rssi(&mut self) -> (rid: usize)
        requires
            old(self).wf(),
        ensures
            final(self).wf(),
            rid == old(self).rssi_updates.receiver_count(),
            final(self).rssi_updates.receiver_count() == old(self).rssi_updates.receiver_count()
                + 1,
            final(self).rssi_updates.history() == old(self).rssi_updates.history(),
            final(self).rssi_updates.receiver_seen(rid as int) == if old(self).rssi_updates.history().len() > 0 {
                old(self).rssi_updates.history().len() - 1
            } else {
                0
            },
            (*final(self) == PeripheralAsync {
                rssi_updates: final(self).rssi_updates,
                ..*old(self)
            }),
    {
        self.rssi_updates.new_receiver()
    }

    /// Service discovery finished: retain its outcome as the latest value.
    pub fn did_discover_services(&mut self, result: Outcome)
        requires
            old(self).wf(),
            old(self).service_discovery.history().len() < u64::MAX,
        ensures
            final(self).wf(),
            final(self).service_discovery.history() == old(self).service_discovery.history().push(
                result,
            ),
            final(self).service_discovery.receiver_count() == old(self).service_discovery.receiver_count(),
            forall|r: int|
                0 <= r < old(self).service_discovery.receiver_count() ==> (#[trigger] final(self).service_discovery.receiver_seen(r)) == old(self).service_discovery.receiver_seen(r),
            (*final(self) == PeripheralAsync {
                service_discovery: final(self).service_discovery,
                ..*old(self)
            }),
    {
        self.service_discovery.try_broadcast(result);
    }

    /// Subscribes to service-discovery outcomes.
    pub fn service_discovery(&mut self) -> (rid: usize)
        requires
            old(self).wf(),
        ensures
            final(self).wf(),
            rid == old(self).service_discovery.receiver_count(),
            final(self).service_discovery.receiver_count() == old(self).service_discovery.receiver_count() + 1,
            final(self).service_discovery.history() == old(self).service_discovery.history(),
            final(self).service_discovery.receiver_seen(rid as int) == if old(self).service_discovery.history().len() > 0 {
                old(self).service_discovery.history().len() - 1
            } else {
                0
            },
            (*final(self) == PeripheralAsync {
                service_discovery: final(self).service_discovery,
                ..*old(self)
            }),
    {
        self.service_discovery.new_receiver()
    }

    /// Begins service discovery: subscribe to the outcome, then issue the
    /// imperative discover call (with the caller's UUID filter, untouched)
    /// and await one outcome.
    pub fn discover_services(&mut self) -> (rid: usize)
        requires
            old(self).wf(),
        ensures
            final(self).wf(),
            rid == old(self).service_discovery.receiver_count(),
            final(self).service_discovery.receiver_count() == old(self).service_discovery.receiver_count() + 1,
            final(self).service_discovery.history() == old(self).service_discovery.history(),
            final(self).service_discovery.receiver_seen(rid as int) == if old(self).service_discovery.history().len() > 0 {
                old(self).service_discovery.history().len() - 1
            } else {
                0
            },
            (*final(self) == PeripheralAsync {
                service_discovery: final(self).service_discovery,
                ..*old(self)
            }),
    {
        self.service_discovery.new_receiver()
    }

    /// Begins included-service discovery for one service: issue the
    /// imperative call, then await the registered ticket.
    pub fn discover_included_services(&mut self, service: ServiceId) -> (r: Registration)
        requires
            old(self).wf(),
            old(self).included_service_discovery.next_ticket() < u64::MAX,
        ensures
            final(self).wf(),
            r.ticket == old(self).included_service_discovery.next_ticket(),
            final(self).included_service_discovery.slots() == old(self).included_service_discovery.slots().insert(service.0 as u128, r.ticket),
            r.superseded == if old(self).included_service_discovery.slots().contains_key(
                service.0 as u128,
            ) {
                Some(old(self).included_service_discovery.slots()[service.0 as u128])
            } else {
                None::<u64>
            },
            (*final(self) == PeripheralAsync {
                included_service_discovery: final(self).included_service_discovery,
                ..*old(self)
            }),
    {
        self.included_service_discovery.register(service.0 as u128)
    }

    /// Registers interest in an included-service discovery completion.
    pub fn included_service_discovery(&mut self, service: ServiceId) -> (r: Registration)
        requires
            old(self).wf(),
            old(self).included_service_discovery.next_ticket() < u64::MAX,
        ensures
            final(self).wf(),
            r.ticket == old(self).included_service_discovery.next_ticket(),
            final(self).included_service_discovery.slots() == old(self).included_service_discovery.slots().insert(service.0 as u128, r.ticket),
            (*final(self) == PeripheralAsync {
                included_service_discovery: final(self).included_service_discovery,
                ..*old(self)
            }),
    {
        self.included_service_discovery.register(service.0 as u128)
    }

    /// Included-service discovery finished for one service: consume its
    /// pending slot and fulfil that waiter with the outcome, untouched.
    pub fn did_discover_included_services(&mut self, service: ServiceId, result: Outcome) -> (r:
        Option<(u64, Outcome)>)
        requires
            old(self).wf(),
        ensures
            final(self).wf(),
            (*final(self) == PeripheralAsync {
                included_service_discovery: final(self).included_service_discovery,
                ..*old(self)
            }),
            match r {
                Some((t, res)) => {
                    &&& old(self).included_service_discovery.slots().contains_key(
                        service.0 as u128,
                    )
                    &&& t == old(self).included_service_discovery.slots()[service.0 as u128]
                    &&& res == result
                    &&& final(self).included_service_discovery.slots() == old(self).included_service_discovery.slots().remove(service.0 as u128)
                },
                None => {
                    &&& !old(self).included_service_discovery.slots().contains_key(
                        service.0 as u128,
                    )
                    &&& final(self).included_service_discovery.slots() == old(self).included_service_discovery.slots()
                },
            },
    {
        match self.included_service_discovery.complete(service.0 as u128) {
            Some(t) => Some((t, result)),
            None => None,
        }
    }

    /// Begins characteristic discovery for one service.
    pub fn discover_characteristics(&mut self, service: ServiceId) -> (r: Registration)
        requires
            old(self).wf(),
            old(self).characteristic_discovery.next_ticket() < u64::MAX,
        ensures
            final(self).wf(),
            r.ticket == old(self).characteristic_discovery.next_ticket(),
            final(self).characteristic_discovery.slots() == old(self).characteristic_discovery.slots().insert(service.0 as u128, r.ticket),
            r.superseded == if old(self).characteristic_discovery.slots().contains_key(
                service.0 as u128,
            ) {
                Some(old(self).characteristic_discovery.slots()[service.0 as u128])
            } else {
                None::<u64>
            },
            (*final(self) == PeripheralAsync {
                characteristic_discovery: final(self).characteristic_discovery,
                ..*old(self)
            }),
    {
        self.characteristic_discovery.register(service.0 as u128)
    }

    /// Registers interest in a characteristic-discovery completion.
    pub fn characteristic_discovery(&mut self, service: ServiceId) -> (r: Registration)
        requires
            old(self).wf(),
            old(self).characteristic_discovery.next_ticket() < u64::MAX,
        ensures
            final(self).wf(),
            r.ticket == old(self).characteristic_discovery.next_ticket(),
            final(self).characteristic_discovery.slots() == old(self).characteristic_discovery.slots().insert(service.0 as u128, r.ticket),
            (*final(self) == PeripheralAsync {
                characteristic_discovery: final(self).characteristic_discovery,
                ..*old(self)
            }),
    {
        self.characteristic_discovery.register(service.0 as u128)
    }

    /// Characteristic discovery finished for one service.
    pub fn did_discover_characteristics(&mut self, service: ServiceId, result: Outcome) -> (r:
        Option<(u64, Outcome)>)
        requires
            old(self).wf(),
        ensures
            final(self).wf(),
            (*final(self) == PeripheralAsync {
                characteristic_discovery: final(self).characteristic_discovery,
                ..*old(self)
            }),
            match r {
                Some((t, res)) => {
                    &&& old(self).characteristic_discovery.slots().contains_key(service.0 as u128)
                    &&& t == old(self).characteristic_discovery.slots()[service.0 as u128]
                    &&& res == result
                    &&& final(self).characteristic_discovery.slots() == old(self).characteristic_discovery.slots().remove(service.0 as u128)
                },
                None => {
                    &&& !old(self).characteristic_discovery.slots().contains_key(
                        service.0 as u128,
                    )
                    &&& final(self).characteristic_discovery.slots() == old(self).characteristic_discovery.slots()
                },
            },
    {
        match self.characteristic_discovery.complete(service.0 as u128) {
            Some(t) => Some((t, result)),
            None => None,
        }
    }

    /// Begins descriptor discovery for one characteristic.
    pub fn discover_descriptors(&mut self, characteristic: CharacteristicId) -> (r: Registration)
        requires
            old(self).wf(),
            old(self).descriptor_discovery.next_ticket() < u64::MAX,
        ensures
            final(self).wf(),
            r.ticket == old(self).descriptor_discovery.next_ticket(),
            final(self).descriptor_discovery.slots() == old(self).descriptor_discovery.slots().insert(characteristic.0 as u128, r.ticket),
            r.superseded == if old(self).descriptor_discovery.slots().contains_key(
                characteristic.0 as u128,
            ) {
                Some(old(self).descriptor_discovery.slots()[characteristic.0 as u128])
            } else {
                None::<u64>
            },
            (*final(self) == PeripheralAsync {
                descriptor_discovery: final(self).descriptor_discovery,
                ..*old(self)
            }),
    {
        self.descriptor_discovery.register(characteristic.0 as u128)
    }

    /// Registers interest in a descriptor-discovery completion.
    pub fn descriptor_discovery(&mut self, characteristic: CharacteristicId) -> (r: Registration)
        requires
            old(self).wf(),
            old(self).descriptor_discovery.next_ticket() < u64::MAX,
        ensures
            final(self).wf(),
            r.ticket == old(self).descriptor_discovery.next_ticket(),
            final(self).descriptor_discovery.slots() == old(self).descriptor_discovery.slots().insert(characteristic.0 as u128, r.ticket),
            (*final(self) == PeripheralAsync {
                descriptor_discovery: final(self).descriptor_discovery,
                ..*old(self)
            }),
    {
        self.descriptor_discovery.register(characteristic.0 as u128)
    }

    /// Descriptor discovery finished for one characteristic.
    pub fn did_discover_descriptors_for_characteristic(
        &mut self,
        characteristic: CharacteristicId,
        result: Outcome,
    ) -> (r: Option<(u64, Outcome)>)
        requires
            old(self).wf(),
        ensures
            final(self).wf(),
            (*final(self) == PeripheralAsync {
                descriptor_discovery: final(self).descriptor_discovery,
                ..*old(self)
            }),
            match r {
                Some((t, res)) => {
                    &&& old(self).descriptor_discovery.slots().contains_key(
                        characteristic.0 as u128,
                    )
                    &&& t == old(self).descriptor_discovery.slots()[characteristic.0 as u128]
                    &&& res == result
                    &&& final(self).descriptor_discovery.slots() == old(self).descriptor_discovery.slots().remove(characteristic.0 as u128)
                },
                None => {
                    &&& !old(self).descriptor_discovery.slots().contains_key(
                        characteristic.0 as u128,
                    )
                    &&& final(self).descriptor_discovery.slots() == old(self).descriptor_discovery.slots()
                },
            },
    {
        match self.descriptor_discovery.complete(characteristic.0 as u128) {
            Some(t) => Some((t, result)),
            None => None,
        }
    }

    /// Subscribes to the value updates of one characteristic, creating its
    /// topic on first subscription.  Updates reach every subscriber, not
    /// only the most recent one.
    pub fn characteristic_value_updates(&mut self, characteristic: CharacteristicId) -> (rid:
        usize)
        requires
            old(self).wf(),
            old(self).characteristic_value_updates.topics().contains_key(characteristic.0)
                ==> old(self).characteristic_value_updates.topics()[characteristic.0].receivers()
                < usize::MAX,
        ensures
            final(self).wf(),
            final(self).characteristic_value_updates.topics().contains_key(characteristic.0),
            final(self).characteristic_value_updates.topics() == old(self).characteristic_value_updates.topics().insert(
                characteristic.0,
                final(self).characteristic_value_updates.topics()[characteristic.0],
            ),
            ({
                let t = final(self).characteristic_value_updates.topics()[characteristic.0];
                if old(self).characteristic_value_updates.topics().contains_key(
                    characteristic.0,
                ) {
                    let t0 = old(self).characteristic_value_updates.topics()[characteristic.0];
                    &&& rid == t0.receivers()
                    &&& t.history() == t0.history()
                    &&& t.receivers() == t0.receivers() + 1
                    &&& t.active_receivers() == t0.active_receivers() + 1
                    &&& t.capacity() == t0.capacity()
                    &&& t.base_index() == t0.base_index()
                    &&& t.receiver_active(rid as int)
                    &&& t.cursor_at(rid as int) == t0.history().len()
                } else {
                    &&& rid == 0
                    &&& t.history() == Seq::<ValueUpdate>::empty()
                    &&& t.receivers() == 1
                    &&& t.active_receivers() == 1
                    &&& t.capacity() == TOPIC_CAPACITY
                    &&& t.base_index() == 0
                    &&& t.receiver_active(0)
                    &&& t.cursor_at(0) == 0
                }
            }),
            (*final(self) == PeripheralAsync {
                characteristic_value_updates: final(self).characteristic_value_updates,
                ..*old(self)
            }),
    {
        self.characteristic_value_updates.subscribe(characteristic.0)
    }

    /// Begins reading the value of one characteristic: subscribe to its
    /// topic, then issue the imperative read call and await one update.
    /// The update observed carries the value present on the characteristic
    /// when the update callback fired, never an older cached value.
    pub fn read_characteristic_value(&mut self, characteristic: CharacteristicId) -> (rid: usize)
        requires
            old(self).wf(),
            old(self).characteristic_value_updates.topics().contains_key(characteristic.0)
                ==> old(self).characteristic_value_updates.topics()[characteristic.0].receivers()
                < usize::MAX,
        ensures
            final(self).wf(),
            final(self).characteristic_value_updates.topics().contains_key(characteristic.0),
            final(self).characteristic_value_updates.topics() == old(self).characteristic_value_updates.topics().insert(
                characteristic.0,
                final(self).characteristic_value_updates.topics()[characteristic.0],
            ),
            ({
                let t = final(self).characteristic_value_updates.topics()[characteristic.0];
                if old(self).characteristic_value_updates.topics().contains_key(
                    characteristic.0,
                ) {
                    let t0 = old(self).characteristic_value_updates.topics()[characteristic.0];
                    &&& rid == t0.receivers()
                    &&& t.history() == t0.history()
                    &&& t.receivers() == t0.receivers() + 1
                    &&& t.active_receivers() == t0.active_receivers() + 1
                    &&& t.capacity() == t0.capacity()
                    &&& t.base_index() == t0.base_index()
                    &&& t.receiver_active(rid as int)
                    &&& t.cursor_at(rid as int) == t0.history().len()
                } else {
                    &&& rid == 0
                    &&& t.history() == Seq::<ValueUpdate>::empty()
                    &&& t.receivers() == 1
                    &&& t.active_receivers() == 1
                    &&& t.capacity() == TOPIC_CAPACITY
                    &&& t.base_index() == 0
                    &&& t.receiver_active(0)
                    &&& t.cursor_at(0) == 0
                }
            }),
            (*final(self) == PeripheralAsync {
                characteristic_value_updates: final(self).characteristic_value_updates,
                ..*old(self)
            }),
    {
        self.characteristic_value_updates.subscribe(characteristic.0)
    }

    /// The value of one characteristic is current: publish, to its topic,
    /// exactly the value present on the characteristic at this moment (or
    /// the failure, untouched).  A topic nobody subscribes to any more is
    /// collected instead; a characteristic nobody ever observed has no
    /// topic and nothing happens.
    pub fn did_update_value_for_characteristic(
        &mut self,
        characteristic: CharacteristicId,
        result: Outcome,
        value_now: Vec<u8>,
    ) -> (r: UpdateDisposition)
        requires
            old(self).wf(),
            old(self).characteristic_value_updates.topics().contains_key(characteristic.0)
                ==> old(self).characteristic_value_updates.topics()[characteristic.0]
                .history().len() < u64::MAX,
        ensures
            final(self).wf(),
            (*final(self) == PeripheralAsync {
                characteristic_value_updates: final(self).characteristic_value_updates,
                ..*old(self)
            }),
            match r {
                UpdateDisposition::Published => {
                    &&& old(self).characteristic_value_updates.topics().contains_key(
                        characteristic.0,
                    )
                    &&& old(self).characteristic_value_updates.topics()[characteristic.0]
                        .active_receivers() > 0
                    &&& final(self).characteristic_value_updates.topics() == old(self).characteristic_value_updates.topics().insert(
                        characteristic.0,
                        final(self).characteristic_value_updates.topics()[characteristic.0],
                    )
                    &&& ({
                        let t0 = old(self).characteristic_value_updates.topics()[
                            characteristic.0];
                        let t = final(self).characteristic_value_updates.topics()[
                            characteristic.0];
                        &&& t.history() == t0.history().push(
                            spec_update_payload(result, value_now),
                        )
                        &&& t.receivers() == t0.receivers()
                        &&& t.active_receivers() == t0.active_receivers()
                        &&& t.capacity() == t0.capacity()
                        &&& t.base_index() == if t0.history().len() - t0.base_index()
                            == t0.capacity() {
                            t0.base_index() + 1
                        } else {
                            t0.base_index()
                        }
                        &&& forall|q: int|
                            0 <= q < t0.receivers() ==> (#[trigger] t.receiver_active(q))
                                == t0.receiver_active(q)
                        &&& forall|q: int|
                            0 <= q < t0.receivers() ==> (#[trigger] t.cursor_at(q))
                                == t0.cursor_at(q)
                        &&& forall|q: int|
                            0 <= q < t0.receivers() ==> (#[trigger] t.cursor_start(q))
                                == t0.cursor_start(q)
                        &&& forall|q: int|
                            0 <= q < t0.receivers() ==> (#[trigger] t.cursor_got(q))
                                == t0.cursor_got(q)
                    })
                },
                UpdateDisposition::Collected => {
                    &&& old(self).characteristic_value_updates.topics().contains_key(
                        characteristic.0,
                    )
                    &&& old(self).characteristic_value_updates.topics()[characteristic.0]
                        .active_receivers() == 0
                    &&& final(self).characteristic_value_updates.topics() == old(self).characteristic_value_updates.topics().remove(characteristic.0)
                },
                UpdateDisposition::NoTopic => {
                    &&& !old(self).characteristic_value_updates.topics().contains_key(
                        characteristic.0,
                    )
                    &&& *final(self) == *old(self)
                },
            },
    {
        let payload = match result {
            Outcome::Done => ValueUpdate::Value(value_now),
            Outcome::Failed(e) => ValueUpdate::Failed(e),
        };
        self.characteristic_value_updates.publish_update(characteristic.0, payload)
    }

    /// Begins writing the value of one characteristic: issue the imperative
    /// write call carrying the returned bytes and write type, untouched,
    /// then await the registered ticket.
    pub fn write_characteristic_value(
        &mut self,
        characteristic: CharacteristicId,
        data: Vec<u8>,
        write_type: CharacteristicWriteType,
    ) -> (r: WriteRequest)
        requires
            old(self).wf(),
            old(self).characteristic_writes.next_ticket() < u64::MAX,
        ensures
            final(self).wf(),
            r.data == data,
            r.write_type == write_type,
            r.registration.ticket == old(self).characteristic_writes.next_ticket(),
            final(self).characteristic_writes.slots() == old(self).characteristic_writes.slots().insert(characteristic.0 as u128, r.registration.ticket),
            (*final(self) == PeripheralAsync {
                characteristic_writes: final(self).characteristic_writes,
                ..*old(self)
            }),
    {
        let registration = self.characteristic_writes.register(characteristic.0 as u128);
        WriteRequest { data, write_type, registration }
    }

    /// Registers interest in a characteristic-write completion.
    pub fn register_characteristic_value_write(&mut self, characteristic: CharacteristicId) -> (r:
        Registration)
        requires
            old(self).wf(),
            old(self).characteristic_writes.next_ticket() < u64::MAX,
        ensures
            final(self).wf(),
            r.ticket == old(self).characteristic_writes.next_ticket(),
            final(self).characteristic_writes.slots() == old(self).characteristic_writes.slots().insert(characteristic.0 as u128, r.ticket),
            (*final(self) == PeripheralAsync {
                characteristic_writes: final(self).characteristic_writes,
                ..*old(self)
            }),
    {
        self.characteristic_writes.register(characteristic.0 as u128)
    }

    /// A characteristic write finished.
    pub fn did_write_value_for_characteristic(
        &mut self,
        characteristic: CharacteristicId,
        result: Outcome,
    ) -> (r: Option<(u64, Outcome)>)
        requires
            old(self).wf(),
        ensures
            final(self).wf(),
            (*final(self) == PeripheralAsync {
                characteristic_writes: final(self).characteristic_writes,
                ..*old(self)
            }),
            match r {
                Some((t, res)) => {
                    &&& old(self).characteristic_writes.slots().contains_key(
                        characteristic.0 as u128,
                    )
                    &&& t == old(self).characteristic_writes.slots()[characteristic.0 as u128]
                    &&& res == result
                    &&& final(self).characteristic_writes.slots() == old(self).characteristic_writes.slots().remove(characteristic.0 as u128)
                },
                None => {
                    &&& !old(self).characteristic_writes.slots().contains_key(
                        characteristic.0 as u128,
                    )
                    &&& final(self).characteristic_writes.slots() == old(self).characteristic_writes.slots()
                },
            },
    {
        match self.characteristic_writes.complete(characteristic.0 as u128) {
            Some(t) => Some((t, result)),
            None => None,
        }
    }

    /// Begins toggling notifications for one characteristic: issue the
    /// imperative call carrying the returned state, untouched, then await
    /// the registered ticket.
    pub fn set_notify(&mut self, characteristic: CharacteristicId, notify: bool) -> (r:
        SetNotifyRequest)
        requires
            old(self).wf(),
            old(self).notification_updates.next_ticket() < u64::MAX,
        ensures
            final(self).wf(),
            r.notify == notify,
            r.registration.ticket == old(self).notification_updates.next_ticket(),
            final(self).notification_updates.slots() == old(self).notification_updates.slots().insert(characteristic.0 as u128, r.registration.ticket),
            (*final(self) == PeripheralAsync {
                notification_updates: final(self).notification_updates,
                ..*old(self)
            }),
    {
        let registration = self.notification_updates.register(characteristic.0 as u128);
        SetNotifyRequest { notify, registration }
    }

    /// Registers interest in a notification-toggle completion.
    pub fn register_notification_update(&mut self, characteristic: CharacteristicId) -> (r:
        Registration)
        requires
            old(self).wf(),
            old(self).notification_updates.next_ticket() < u64::MAX,
        ensures
            final(self).wf(),
            r.ticket == old(self).notification_updates.next_ticket(),
            final(self).notification_updates.slots() == old(self).notification_updates.slots().insert(characteristic.0 as u128, r.ticket),
            (*final(self) == PeripheralAsync {
                notification_updates: final(self).notification_updates,
                ..*old(self)
            }),
    {
        self.notification_updates.register(characteristic.0 as u128)
    }

    /// A notification toggle finished: the waiter learns whether the
    /// characteristic is notifying now, read from it when the callback
    /// fired, or the failure, untouched.
    pub fn did_update_notification_state_for_characteristic(
        &mut self,
        characteristic: CharacteristicId,
        result: Outcome,
        is_notifying_now: bool,
    ) -> (r: Option<(u64, NotifyUpdate)>)
        requires
            old(self).wf(),
        ensures
            final(self).wf(),
            (*final(self) == PeripheralAsync {
                notification_updates: final(self).notification_updates,
                ..*old(self)
            }),
            match r {
                Some((t, res)) => {
                    &&& old(self).notification_updates.slots().contains_key(
                        characteristic.0 as u128,
                    )
                    &&& t == old(self).notification_updates.slots()[characteristic.0 as u128]
                    &&& res == (match result {
                        Outcome::Done => NotifyUpdate::Notifying(is_notifying_now),
                        Outcome::Failed(e) => NotifyUpdate::Failed(e),
                    })
                    &&& final(self).notification_updates.slots() == old(self).notification_updates.slots().remove(characteristic.0 as u128)
                },
                None => {
                    &&& !old(self).notification_updates.slots().contains_key(
                        characteristic.0 as u128,
                    )
                    &&& final(self).notification_updates.slots() == old(self).notification_updates.slots()
                },
            },
    {
        match self.notification_updates.complete(characteristic.0 as u128) {
            Some(t) => {
                let res = match result {
                    Outcome::Done => NotifyUpdate::Notifying(is_notifying_now),
                    Outcome::Failed(e) => NotifyUpdate::Failed(e),
                };
                Some((t, res))
            },
            None => None,
        }
    }

    /// Begins reading the value of one descriptor: issue the imperative
    /// read call, then await the registered ticket; the fulfilment carries
    /// the value present on the descriptor when the callback fires.
    pub fn read_descriptor_value(&mut self, descriptor: DescriptorId) -> (r: Registration)
        requires
            old(self).wf(),
            old(self).descriptor_value_updates.next_ticket() < u64::MAX,
        ensures
            final(self).wf(),
            r.ticket == old(self).descriptor_value_updates.next_ticket(),
            final(self).descriptor_value_updates.slots() == old(self).descriptor_value_updates.slots().insert(descriptor.0 as u128, r.ticket),
            (*final(self) == PeripheralAsync {
                descriptor_value_updates: final(self).descriptor_value_updates,
                ..*old(self)
            }),
    {
        self.descriptor_value_updates.register(descriptor.0 as u128)
    }

    /// Registers interest in a descriptor-read completion.
    pub fn descriptor_value_updates(&mut self, descriptor: DescriptorId) -> (r: Registration)
        requires
            old(self).wf(),
            old(self).descriptor_value_updates.next_ticket() < u64::MAX,
        ensures
            final(self).wf(),
            r.ticket == old(self).descriptor_value_updates.next_ticket(),
            final(self).descriptor_value_updates.slots() == old(self).descriptor_value_updates.slots().insert(descriptor.0 as u128, r.ticket),
            (*final(self) == PeripheralAsync {
                descriptor_value_updates: final(self).descriptor_value_updates,
                ..*old(self)
            }),
    {
        self.descriptor_value_updates.register(descriptor.0 as u128)
    }

    /// The value of one descriptor is current: consume its pending slot and
    /// fulfil that waiter with exactly the value present on the descriptor
    /// at this moment (or the failure, untouched).
    pub fn did_update_value_for_descriptor(
        &mut self,
        descriptor: DescriptorId,
        result: Outcome,
        value_now: Vec<u8>,
    ) -> (r: Option<(u64, ValueUpdate)>)
        requires
            old(self).wf(),
        ensures
            final(self).wf(),
            (*final(self) == PeripheralAsync {
                descriptor_value_updates: final(self).descriptor_value_updates,
                ..*old(self)
            }),
            match r {
                Some((t, res)) => {
                    &&& old(self).descriptor_value_updates.slots().contains_key(
                        descriptor.0 as u128,
                    )
                    &&& t == old(self).descriptor_value_updates.slots()[descriptor.0 as u128]
                    &&& res == spec_update_payload(result, value_now)
                    &&& final(self).descriptor_value_updates.slots() == old(self).descriptor_value_updates.slots().remove(descriptor.0 as u128)
                },
                None => {
                    &&& !old(self).descriptor_value_updates.slots().contains_key(
                        descriptor.0 as u128,
                    )
                    &&& final(self).descriptor_value_updates.slots() == old(self).descriptor_value_updates.slots()
                },
            },
    {
        match self.descriptor_value_updates.complete(descriptor.0 as u128) {
            Some(t) => {
                let res = match result {
                    Outcome::Done => ValueUpdate::Value(value_now),
                    Outcome::Failed(e) => ValueUpdate::Failed(e),
                };
                Some((t, res))
            },
            None => None,
        }
    }

    /// Begins writing the value of one descriptor: issue the imperative
    /// write call carrying the returned bytes, untouched, then await the
    /// registered ticket.
    pub fn write_descriptor_value(&mut self, descriptor: DescriptorId, data: Vec<u8>) -> (r:
        DescriptorWriteRequest)
        requires
            old(self).wf(),
            old(self).descriptor_writes.next_ticket() < u64::MAX,
        ensures
            final(self).wf(),
            r.data == data,
            r.registration.ticket == old(self).descriptor_writes.next_ticket(),
            final(self).descriptor_writes.slots() == old(self).descriptor_writes.slots().insert(
                descriptor.0 as u128,
                r.registration.ticket,
            ),
            (*final(self) == PeripheralAsync {
                descriptor_writes: final(self).descriptor_writes,
                ..*old(self)
            }),
    {
        let registration = self.descriptor_writes.register(descriptor.0 as u128);
        DescriptorWriteRequest { data, registration }
    }

    /// Registers interest in a descriptor-write completion.
    pub fn register_descriptor_value_write(&mut self, descriptor: DescriptorId) -> (r:
        Registration)
        requires
            old(self).wf(),
            old(self).descriptor_writes.next_ticket() < u64::MAX,
        ensures
            final(self).wf(),
            r.ticket == old(self).descriptor_writes.next_ticket(),
            final(self).descriptor_writes.slots() == old(self).descriptor_writes.slots().insert(
                descriptor.0 as u128,
                r.ticket,
            ),
            (*final(self) == PeripheralAsync {
                descriptor_writes: final(self).descriptor_writes,
                ..*old(self)
            }),
    {
        self.descriptor_writes.register(descriptor.0 as u128)
    }

    /// A descriptor write finished.
    pub fn did_write_value_for_descriptor(&mut self, descriptor: DescriptorId, result: Outcome) -> (
        r: Option<(u64, Outcome)>)
        requires
            old(self).wf(),
        ensures
            final(self).wf(),
            (*final(self) == PeripheralAsync {
                descriptor_writes: final(self).descriptor_writes,
                ..*old(self)
            }),
            match r {
                Some((t, res)) => {
                    &&& old(self).descriptor_writes.slots().contains_key(descriptor.0 as u128)
                    &&& t == old(self).descriptor_writes.slots()[descriptor.0 as u128]
                    &&& res == result
                    &&& final(self).descriptor_writes.slots() == old(self).descriptor_writes.slots().remove(descriptor.0 as u128)
                },
                None => {
                    &&& !old(self).descriptor_writes.slots().contains_key(descriptor.0 as u128)
                    &&& final(self).descriptor_writes.slots() == old(self).descriptor_writes.slots()
                },
            },
    {
        match self.descriptor_writes.complete(descriptor.0 as u128) {
            Some(t) => Some((t, result)),
            None => None,
        }
    }

    /// The peripheral is ready to take a write without response: retain
    /// the signal for current and future subscribers.
    pub fn is_ready_to_send_write_without_response(&mut self)
        requires
            old(self).wf(),
            old(self).ready_to_send_write_without_response.history().len() < u64::MAX,
        ensures
            final(self).wf(),
            final(self).ready_to_send_write_without_response.history() == old(self).ready_to_send_write_without_response.history().push(()),
            final(self).ready_to_send_write_without_response.receiver_count() == old(self).ready_to_send_write_without_response.receiver_count(),
            forall|r: int|
                0 <= r < old(self).ready_to_send_write_without_response.receiver_count() ==> (
                #[trigger] final(self).ready_to_send_write_without_response.receiver_seen(r)) == old(
                    self,
                ).ready_to_send_write_without_response.receiver_seen(r),
            (*final(self) == PeripheralAsync {
                ready_to_send_write_without_response: final(self).ready_to_send_write_without_response,
                ..*old(self)
            }),
    {
        self.ready_to_send_write_without_response.try_broadcast(());
    }

    /// Gates a write without response on the platform's capacity: with
    /// capacity available right now the request proceeds at once and
    /// nothing is subscribed; otherwise one readiness event is awaited
    /// under a fresh watch receiver.  A readiness signal retained before
    /// the subscription is already pending on that receiver: no caller
    /// busy-polls, and a signal retained between testing the capacity and
    /// subscribing is not lost.
    pub fn ready_to_send_write_without_response(&mut self, can_send_now: bool) -> (r: ReadyGate)
        requires
            old(self).wf(),
        ensures
            final(self).wf(),
            match r {
                ReadyGate::Ready => {
                    &&& can_send_now
                    &&& *final(self) == *old(self)
                },
                ReadyGate::Await { rid } => {
                    &&& !can_send_now
                    &&& rid == old(self).ready_to_send_write_without_response.receiver_count()
                    &&& final(self).ready_to_send_write_without_response.receiver_count() == old(self).ready_to_send_write_without_response.receiver_count() + 1
                    &&& final(self).ready_to_send_write_without_response.history() == old(self).ready_to_send_write_without_response.history()
                    &&& final(self).ready_to_send_write_without_response.receiver_seen(rid as int)
                        == if old(self).ready_to_send_write_without_response.history().len() > 0 {
                        old(self).ready_to_send_write_without_response.history().len() - 1
                    } else {
                        0
                    }
                    &&& (*final(self) == PeripheralAsync {
                        ready_to_send_write_without_response: final(self).ready_to_send_write_without_response,
                        ..*old(self)
                    })
                },
            },
    {
        if can_send_now {
            ReadyGate::Ready
        } else {
            let rid = self.ready_to_send_write_without_response.new_receiver();
            ReadyGate::Await { rid }
        }
    }

    /// Begins opening a channel to the peripheral: issue the imperative
    /// open call carrying the returned port, untouched, then await the
    /// registered ticket.  The channel and its stream pass through to the
    /// fulfilled waiter outside this layer.
    pub fn open_l2cap_channel(&mut self, psm: u16) -> (r: L2capRequest)
        requires
            old(self).wf(),
            old(self).l2cap_next_ticket < u64::MAX,
        ensures
            final(self).wf(),
            r.psm == psm,
            r.registration.ticket == old(self).l2cap_next_ticket,
            r.registration.superseded == old(self).l2cap_channel_opened,
            final(self).l2cap_channel_opened == Some(r.registration.ticket),
            final(self).l2cap_next_ticket == old(self).l2cap_next_ticket + 1,
            (*final(self) == PeripheralAsync {
                l2cap_channel_opened: final(self).l2cap_channel_opened,
                l2cap_next_ticket: final(self).l2cap_next_ticket,
                ..*old(self)
            }),
    {
        let registration = self.register_l2cap_channel_open();
        L2capRequest { psm, registration }
    }

    /// Registers the single channel-open slot, replacing a stale pending
    /// one (that waiter observes cancellation, not a hang).
    pub fn register_l2cap_channel_open(&mut self) -> (r: Registration)
        requires
            old(self).wf(),
            old(self).l2cap_next_ticket < u64::MAX,
        ensures
            final(self).wf(),
            r.ticket == old(self).l2cap_next_ticket,
            r.superseded == old(self).l2cap_channel_opened,
            r.superseded matches Some(t) ==> t != r.ticket,
            final(self).l2cap_channel_opened == Some(r.ticket),
            final(self).l2cap_next_ticket == old(self).l2cap_next_ticket + 1,
            (*final(self) == PeripheralAsync {
                l2cap_channel_opened: final(self).l2cap_channel_opened,
                l2cap_next_ticket: final(self).l2cap_next_ticket,
                ..*old(self)
            }),
    {
        let ticket = self.l2cap_next_ticket;
        self.l2cap_next_ticket = ticket + 1;
        let superseded = self.l2cap_channel_opened;
        self.l2cap_channel_opened = Some(ticket);
        Registration { ticket, superseded }
    }

    /// The channel-open finished: consume the single slot, if a waiter is
    /// still interested, and fulfil that ticket with the platform's result,
    /// which passes through outside this layer.
    pub fn did_open_l2cap_channel(&mut self) -> (r: Option<u64>)
        requires
            old(self).wf(),
        ensures
            final(self).wf(),
            r == old(self).l2cap_channel_opened,
            final(self).l2cap_channel_opened == None::<u64>,
            (*final(self) == PeripheralAsync {
                l2cap_channel_opened: final(self).l2cap_channel_opened,
                ..*old(self)
            }),
    {
        let r = self.l2cap_channel_opened;
        self.l2cap_channel_opened = None;
        r
    }
}

/// Law: after a successful value-update callback, what stands last in the
/// characteristic's topic is exactly the value that was present on the
/// characteristic when the callback fired; a read that was awaiting the
/// topic therefore receives that value and no cached predecessor.
pub proof fn lemma_read_after_notify(
    t0: BroadcastTopic<ValueUpdate>,
    t1: BroadcastTopic<ValueUpdate>,
    value_now: Vec<u8>,
    rid: int,
)
    requires
        t1.wf(),
        t1.history() == t0.history().push(spec_update_payload(Outcome::Done, value_now)),
        0 <= rid < t1.receivers(),
        t1.cursor_at(rid) == t0.history().len(),
    ensures
        t1.history()[t1.cursor_at(rid)].deep_view() == ValueUpdateView::Value(value_now@),
{
    assert(t1.history()[t1.cursor_at(rid)] == ValueUpdate::Value(value_now));
    assert(value_now.deep_view() =~= value_now@);
}

} // verus!

