//! The central-manager delegate scope: connection, scan and manager-state
//! correlation.
//!
//! One value of [`CentralManagerAsync`] owns every pending slot and topic of
//! one central manager.  All of its methods run on the scope's single serial
//! queue, callbacks and requests alike, so registration and fulfilment are
//! mutually exclusive in time and no further locking exists.
//!
//! The façade protocol for a request is always the same: issue the
//! imperative platform call, then register interest here, then await.  The
//! callback handlers (`did_*`) are the single entry points for the
//! platform's delegate methods; each one fulfils or publishes, else
//! no-ops, and never blocks.  Where a handler decides that an imperative
//! call must follow (stopping an abandoned scan), it says so in its result
//! and the caller issues that call.

use vstd::prelude::*;

use crate::advertisement_data::AdvertisementData;
use crate::error::Error;
use crate::ids::{BluetoothUuid, ConnectionEventKind, ManagerState, PeripheralId, PeripheralState};
use crate::pending::{PendingSlots, Registration};
use crate::relay::{BroadcastTopic, Dup, TopicRecv, WatchTopic, TOPIC_CAPACITY};
use crate::scan_queue::{DemandGatedQueue, EmitOutcome};
use crate::util::{broadcast, defer, watch, ScopeGuard};

verus! {

/// A peripheral disconnection event.
#[derive(Clone, Copy, Debug, PartialEq, Eq, Structural)]
pub struct DidDisconnect {
    /// The peripheral that was disconnected.
    pub peripheral: PeripheralId,
    /// When the disconnection occurred, in nanoseconds since the epoch, if
    /// the platform reported a time.
    pub timestamp: Option<i64>,
    /// Whether the peripheral is being reconnected.
    pub is_reconnecting: bool,
    /// The error that caused the disconnection, if any.
    pub error: Option<Error>,
}

impl DeepView for DidDisconnect {
    type V = DidDisconnect;

    open spec fn deep_view(&self) -> DidDisconnect {
        *self
    }
}

impl Dup for DidDisconnect {
    fn dup(&self) -> (r: DidDisconnect) {
        *self
    }
}

/// A connection event for a registered peripheral.
#[derive(Clone, Copy, Debug, PartialEq, Eq, Structural)]
pub struct ConnectionEvent {
    /// The peripheral that the event is for.
    pub peripheral: PeripheralId,
    /// The connection event.
    pub event: ConnectionEventKind,
}

impl DeepView for ConnectionEvent {
    type V = ConnectionEvent;

    open spec fn deep_view(&self) -> ConnectionEvent {
        *self
    }
}

impl Dup for ConnectionEvent {
    fn dup(&self) -> (r: ConnectionEvent) {
        *self
    }
}

/// A peripheral discovery event.
#[derive(Debug, Clone, PartialEq, Eq)]
pub struct DidDiscover {
    /// The peripheral that was discovered.
    pub peripheral: PeripheralId,
    /// The advertisement data of the peripheral.
    pub advertisement_data: AdvertisementData,
    /// The RSSI of the peripheral.
    pub rssi: i16,
}

/// Options for connecting to a peripheral: pass-through configuration that
/// this layer never interprets.
#[derive(Debug, Clone, Copy, PartialEq, Eq, Structural)]
pub struct ConnectPeripheralOptions {
    /// Whether to automatically reconnect to the peripheral when it is
    /// available.
    pub enable_auto_reconnect: bool,
    /// Whether to enable transport bridging.
    pub enable_transport_bridging: bool,
    /// Whether to notify on connection.
    pub notify_on_connection: bool,
    /// Whether to notify on disconnection.
    pub notify_on_disconnection: bool,
    /// Whether to notify on notification.
    pub notify_on_notification: bool,
    /// Whether ANCS is required.
    pub requires_ancs: bool,
}

impl Default for ConnectPeripheralOptions {
    /// All options off.
    fn default() -> (r: Self)
        ensures
            r == ConnectPeripheralOptions::spec_default(),
    {
        ConnectPeripheralOptions {
            enable_auto_reconnect: false,
            enable_transport_bridging: false,
            notify_on_connection: false,
            notify_on_disconnection: false,
            notify_on_notification: false,
            requires_ancs: false,
        }
    }
}

/// The option entries the platform call carries: one per enabled flag.
#[derive(Debug, Clone, Copy, PartialEq, Eq, Structural)]
pub enum ConnectOptionKey {
    EnableAutoReconnect,
    EnableTransportBridging,
    NotifyOnConnection,
    NotifyOnDisconnection,
    NotifyOnNotification,
    RequiresAncs,
}

impl ConnectPeripheralOptions {
    pub open spec fn spec_default() -> ConnectPeripheralOptions {
        ConnectPeripheralOptions {
            enable_auto_reconnect: false,
            enable_transport_bridging: false,
            notify_on_connection: false,
            notify_on_disconnection: false,
            notify_on_notification: false,
            requires_ancs: false,
        }
    }

    /// The entries the options dictionary of the platform call holds: a key
    /// appears exactly when its flag is set, in this fixed order.
    pub open spec fn spec_option_keys(self) -> Seq<ConnectOptionKey> {
        let s0 = Seq::<ConnectOptionKey>::empty();
        let s1 = if self.enable_auto_reconnect {
            s0.push(ConnectOptionKey::EnableAutoReconnect)
        } else {
            s0
        };
        let s2 = if self.enable_transport_bridging {
            s1.push(ConnectOptionKey::EnableTransportBridging)
        } else {
            s1
        };
        let s3 = if self.notify_on_connection {
            s2.push(ConnectOptionKey::NotifyOnConnection)
        } else {
            s2
        };
        let s4 = if self.notify_on_disconnection {
            s3.push(ConnectOptionKey::NotifyOnDisconnection)
        } else {
            s3
        };
        let s5 = if self.notify_on_notification {
            s4.push(ConnectOptionKey::NotifyOnNotification)
        } else {
            s4
        };
        if self.requires_ancs {
            s5.push(ConnectOptionKey::RequiresAncs)
        } else {
            s5
        }
    }

    /// Selects which option entries the platform call must carry: exactly
    /// the enabled flags, each as its dictionary key.
    pub fn option_keys(&self) -> (keys: Vec<ConnectOptionKey>)
        ensures
            keys@ == self.spec_option_keys(),
    {
        let mut keys: Vec<ConnectOptionKey> = Vec::new();
        if self.enable_auto_reconnect {
            keys.push(ConnectOptionKey::EnableAutoReconnect);
        }
        if self.enable_transport_bridging {
            keys.push(ConnectOptionKey::EnableTransportBridging);
        }
        if self.notify_on_connection {
            keys.push(ConnectOptionKey::NotifyOnConnection);
        }
        if self.notify_on_disconnection {
            keys.push(ConnectOptionKey::NotifyOnDisconnection);
        }
        if self.notify_on_notification {
            keys.push(ConnectOptionKey::NotifyOnNotification);
        }
        if self.requires_ancs {
            keys.push(ConnectOptionKey::RequiresAncs);
        }
        keys
    }
}

/// A connect request in flight: the registration the caller awaits and the
/// armed compensating guard.
pub struct ConnectRequest {
    /// The fresh one-shot registration keyed by the peripheral.
    pub registration: Registration,
    /// The compensating guard: if the request is abandoned while the
    /// peripheral still stands in `Connecting`, the guard's payload names
    /// the peripheral whose connection must be canceled.
    pub guard: ScopeGuard<PeripheralId>,
}

/// What a cancel-connection request decided.
pub struct CancelRequest {
    /// Whether the imperative cancel call must be issued now (the
    /// peripheral was connecting or connected).
    pub issue_cancel: bool,
    /// Whether and where to await the matching disconnect event.
    pub plan: CancelPlan,
}

/// Whether a cancel-connection request awaits a disconnect event.
pub enum CancelPlan {
    /// The peripheral was connected: await the disconnect event stream
    /// under this receiver until the matching peripheral disconnects.
    AwaitDisconnect { rid: usize },
    /// The peripheral was not connected: no disconnect event is owed and
    /// the request returns at once with no event.
    NoEvent,
}

/// One poll of the disconnect stream on behalf of a cancel-connection
/// request.
pub enum DisconnectWait {
    /// The disconnect event of the awaited peripheral.
    Matched(DidDisconnect),
    /// Every available event was examined and none matched; await more.
    Pending,
}

/// The scan filter the imperative scan-start call carries, untouched.
#[derive(Debug, Clone, PartialEq, Eq)]
pub struct ScanFilter {
    /// Scan only for these service UUIDs; `None` scans unfiltered.
    pub services: Option<Vec<BluetoothUuid>>,
    /// Whether duplicate discoveries of one peripheral are delivered.
    pub allow_duplicates: bool,
    /// Scan only for peripherals soliciting these service UUIDs; `None`
    /// does not filter.
    pub solicited_services: Option<Vec<BluetoothUuid>>,
}

/// The correlation registry of one central manager: every pending
/// completion slot and every topic of the scope, and the scan gate.
pub struct CentralManagerAsync {
    /// Pending connect completions, keyed by peripheral identity.
    pub connecting: PendingSlots,
    /// The latest manager power state.
    pub state_updated: WatchTopic<ManagerState>,
    /// Disconnection events of every peripheral of this manager.
    pub disconnects: BroadcastTopic<DidDisconnect>,
    /// The demand-gated scan stream.
    pub discoveries: DemandGatedQueue<DidDiscover>,
    /// Connection events of registered peripherals.
    pub connection_events: BroadcastTopic<ConnectionEvent>,
    /// ANCS authorization updates.
    pub ancs_authorization_updates: BroadcastTopic<PeripheralId>,
    /// Mirror of the platform's "is scanning" state: an active scan exists.
    pub scanning: bool,
}

impl CentralManagerAsync {
    pub open spec fn wf(self) -> bool {
        &&& self.connecting.wf()
        &&& self.state_updated.wf()
        &&& self.disconnects.wf()
        &&& self.discoveries.wf()
        &&& self.connection_events.wf()
        &&& self.ancs_authorization_updates.wf()
    }

    /// Whether a scan is currently active.
    pub open spec fn is_scanning(self) -> bool {
        self.scanning
    }

    /// The topics and slots this operation does not touch stay untouched.
    pub open spec fn same_but_connecting(pre: Self, post: Self) -> bool {
        &&& post.state_updated == pre.state_updated
        &&& post.disconnects == pre.disconnects
        &&& post.discoveries == pre.discoveries
        &&& post.connection_events == pre.connection_events
        &&& post.ancs_authorization_updates == pre.ancs_authorization_updates
        &&& post.scanning == pre.scanning
    }

    /// A fresh scope: all maps empty, all topics without history, no scan.
    pub fn new() -> (r: Self)
        ensures
            r.wf(),
            r.connecting.slots() == Map::<u128, u64>::empty(),
            r.connecting.next_ticket() == 0,
            r.state_updated.history() == Seq::<ManagerState>::empty(),
            r.state_updated.receiver_count() == 0,
            r.disconnects.history() == Seq::<DidDisconnect>::empty(),
            r.disconnects.receivers() == 0,
            r.disconnects.capacity() == TOPIC_CAPACITY,
            r.disconnects.base_index() == 0,
            !r.discoveries.is_open(),
            !r.discoveries.consumer_alive(),
            r.connection_events.history() == Seq::<ConnectionEvent>::empty(),
            r.connection_events.receivers() == 0,
            r.connection_events.capacity() == TOPIC_CAPACITY,
            r.connection_events.base_index() == 0,
            r.ancs_authorization_updates.history() == Seq::<PeripheralId>::empty(),
            r.ancs_authorization_updates.receivers() == 0,
            r.ancs_authorization_updates.capacity() == TOPIC_CAPACITY,
            r.ancs_authorization_updates.base_index() == 0,
            !r.is_scanning(),
    {
        CentralManagerAsync {
            connecting: PendingSlots::new(),
            state_updated: watch(),
            disconnects: broadcast(TOPIC_CAPACITY),
            discoveries: DemandGatedQueue::new(),
            connection_events: broadcast(TOPIC_CAPACITY),
            ancs_authorization_updates: broadcast(TOPIC_CAPACITY),
            scanning: false,
        }
    }

    /// Whether a scan is currently active.
    pub fn scanning_now(&self) -> (r: bool)
        ensures
            r == self.is_scanning(),
    {
        self.scanning
    }

    /// What a connect request changes: a fresh slot for the peripheral,
    /// superseding any earlier one, and nothing else.
    pub open spec fn connect_post(
        pre: Self,
        post: Self,
        peripheral: PeripheralId,
        reg: Registration,
    ) -> bool {
        &&& reg.ticket == pre.connecting.next_ticket()
        &&& post.connecting.next_ticket() == pre.connecting.next_ticket() + 1
        &&& post.connecting.slots() == pre.connecting.slots().insert(peripheral.0, reg.ticket)
        &&& reg.superseded == if pre.connecting.slots().contains_key(peripheral.0) {
            Some(pre.connecting.slots()[peripheral.0])
        } else {
            None::<u64>
        }
        &&& Self::same_but_connecting(pre, post)
    }

    /// Registers a fresh connect completion slot for the peripheral,
    /// superseding a stale slot left by an earlier request on the same
    /// peripheral (that waiter observes cancellation, not a hang).
    pub fn register_connecting(&mut self, peripheral: PeripheralId) -> (r: Registration)
        requires
            old(self).wf(),
            old(self).connecting.next_ticket() < u64::MAX,
        ensures
            final(self).wf(),
            Self::connect_post(*old(self), *final(self), peripheral, r),
            r.superseded matches Some(t) ==> t != r.ticket,
    {
        self.connecting.register(peripheral.0)
    }

    /// Begins establishing a connection.
    ///
    /// The imperative connect call, carrying `options` untouched, is issued
    /// before this registration.  The caller then awaits the registered
    /// ticket.  On fulfilment it defuses the guard; if it abandons the wait
    /// instead, it fires the guard and, when [`connect_cleanup`] so
    /// decides, issues the compensating cancel call.
    pub fn connect_with_options(
        &mut self,
        peripheral: PeripheralId,
        options: ConnectPeripheralOptions,
    ) -> (r: ConnectRequest)
        requires
            old(self).wf(),
            old(self).connecting.next_ticket() < u64::MAX,
        ensures
            final(self).wf(),
            Self::connect_post(*old(self), *final(self), peripheral, r.registration),
            r.registration.superseded matches Some(t) ==> t != r.registration.ticket,
            r.guard.payload() == peripheral,
    {
        let guard = defer(peripheral);
        let registration = self.connecting.register(peripheral.0);
        ConnectRequest { registration, guard }
    }

    /// Begins establishing a connection with default options.
    pub fn connect(&mut self, peripheral: PeripheralId) -> (r: ConnectRequest)
        requires
            old(self).wf(),
            old(self).connecting.next_ticket() < u64::MAX,
        ensures
            final(self).wf(),
            Self::connect_post(*old(self), *final(self), peripheral, r.registration),
            r.registration.superseded matches Some(t) ==> t != r.registration.ticket,
            r.guard.payload() == peripheral,
    {
        self.connect_with_options(peripheral, ConnectPeripheralOptions::default())
    }

    /// The platform connected the peripheral: consume its pending slot and
    /// fulfil that waiter with success.  With no slot pending (the waiter
    /// gave up), nothing happens.
    pub fn did_connect(&mut self, peripheral: PeripheralId) -> (r: Option<u64>)
        requires
            old(self).wf(),
        ensures
            final(self).wf(),
            Self::same_but_connecting(*old(self), *final(self)),
            final(self).connecting.next_ticket() == old(self).connecting.next_ticket(),
            match r {
                Some(t) => {
                    &&& old(self).connecting.slots().contains_key(peripheral.0)
                    &&& t == old(self).connecting.slots()[peripheral.0]
                    &&& final(self).connecting.slots() == old(self).connecting.slots().remove(
                        peripheral.0,
                    )
                },
                None => {
                    &&& !old(self).connecting.slots().contains_key(peripheral.0)
                    &&& final(self).connecting.slots() == old(self).connecting.slots()
                },
            },
    {
        self.connecting.complete(peripheral.0)
    }

    /// The platform failed to connect the peripheral: consume its pending
    /// slot and fulfil that waiter with the reported error, untouched.
    pub fn did_fail_to_connect(&mut self, peripheral: PeripheralId, error: Error) -> (r: Option<
        (u64, Error),
    >)
        requires
            old(self).wf(),
        ensures
            final(self).wf(),
            Self::same_but_connecting(*old(self), *final(self)),
            final(self).connecting.next_ticket() == old(self).connecting.next_ticket(),
            match r {
                Some((t, e)) => {
                    &&& old(self).connecting.slots().contains_key(peripheral.0)
                    &&& t == old(self).connecting.slots()[peripheral.0]
                    &&& e == error
                    &&& final(self).connecting.slots() == old(self).connecting.slots().remove(
                        peripheral.0,
                    )
                },
                None => {
                    &&& !old(self).connecting.slots().contains_key(peripheral.0)
                    &&& final(self).connecting.slots() == old(self).connecting.slots()
                },
            },
    {
        match self.connecting.complete(peripheral.0) {
            Some(t) => Some((t, error)),
            None => None,
        }
    }

    /// The manager's power state changed: retain it as the latest value for
    /// current and future subscribers.
    pub fn did_update_state(&mut self, state: ManagerState)
        requires
            old(self).wf(),
            old(self).state_updated.history().len() < u64::MAX,
        ensures
            final(self).wf(),
            final(self).state_updated.history() == old(self).state_updated.history().push(state),
            final(self).state_updated.receiver_count() == old(self).state_updated.receiver_count(),
            forall|r: int|
                0 <= r < old(self).state_updated.receiver_count() ==> (#[trigger] final(self).state_updated.receiver_seen(r)) == old(self).state_updated.receiver_seen(r),
            final(self).connecting == old(self).connecting,
            final(self).disconnects == old(self).disconnects,
            final(self).discoveries == old(self).discoveries,
            final(self).connection_events == old(self).connection_events,
            final(self).ancs_authorization_updates == old(self).ancs_authorization_updates,
            final(self).scanning == old(self).scanning,
    {
        self.state_updated.try_broadcast(state);
    }

    /// Subscribes to manager power-state updates; the latest state, if any
    /// was ever published, is immediately pending for the new receiver.
    pub fn state_updates(&mut self) -> (rid: usize)
        requires
            old(self).wf(),
        ensures
            final(self).wf(),
            rid == old(self).state_updated.receiver_count(),
            final(self).state_updated.receiver_count() == old(self).state_updated.receiver_count()
                + 1,
            final(self).state_updated.history() == old(self).state_updated.history(),
            final(self).state_updated.receiver_seen(rid as int) == if old(self).state_updated.history().len() > 0 {
                old(self).state_updated.history().len() - 1
            } else {
                0
            },
            final(self).connecting == old(self).connecting,
            final(self).disconnects == old(self).disconnects,
            final(self).discoveries == old(self).discoveries,
            final(self).connection_events == old(self).connection_events,
            final(self).ancs_authorization_updates == old(self).ancs_authorization_updates,
            final(self).scanning == old(self).scanning,
    {
        self.state_updated.new_receiver()
    }

    /// A peripheral disconnected: publish to every subscriber of the shared
    /// disconnect topic.  Publishing never blocks; with no subscribers the
    /// event is dropped.
    pub fn did_disconnect(&mut self, event: DidDisconnect)
        requires
            old(self).wf(),
            old(self).disconnects.history().len() < u64::MAX,
        ensures
            final(self).wf(),
            final(self).disconnects.history() == old(self).disconnects.history().push(event),
            final(self).disconnects.capacity() == old(self).disconnects.capacity(),
            final(self).disconnects.receivers() == old(self).disconnects.receivers(),
            final(self).disconnects.active_receivers() == old(self).disconnects.active_receivers(),
            final(self).disconnects.base_index() == if old(self).disconnects.history().len() - old(self).disconnects.base_index() == old(self).disconnects.capacity() {
                old(self).disconnects.base_index() + 1
            } else {
                old(self).disconnects.base_index()
            },
            forall|r: int|
                0 <= r < old(self).disconnects.receivers() ==> (#[trigger] final(self).disconnects.receiver_active(r)) == old(self).disconnects.receiver_active(r),
            forall|r: int|
                0 <= r < old(self).disconnects.receivers() ==> (#[trigger] final(self).disconnects.cursor_at(r)) == old(self).disconnects.cursor_at(r),
            forall|r: int|
                0 <= r < old(self).disconnects.receivers() ==> (#[trigger] final(self).disconnects.cursor_start(r)) == old(self).disconnects.cursor_start(r),
            forall|r: int|
                0 <= r < old(self).disconnects.receivers() ==> (#[trigger] final(self).disconnects.cursor_got(r)) == old(self).disconnects.cursor_got(r),
            final(self).connecting == old(self).connecting,
            final(self).state_updated == old(self).state_updated,
            final(self).discoveries == old(self).discoveries,
            final(self).connection_events == old(self).connection_events,
            final(self).ancs_authorization_updates == old(self).ancs_authorization_updates,
            final(self).scanning == old(self).scanning,
    {
        self.disconnects.try_broadcast(event);
    }

    /// Subscribes to disconnection events, starting at "now".
    pub fn disconnections(&mut self) -> (rid: usize)
        requires
            old(self).wf(),
            old(self).disconnects.receivers() < usize::MAX,
        ensures
            final(self).wf(),
            rid == old(self).disconnects.receivers(),
            final(self).disconnects.receivers() == old(self).disconnects.receivers() + 1,
            final(self).disconnects.history() == old(self).disconnects.history(),
            final(self).disconnects.capacity() == old(self).disconnects.capacity(),
            final(self).disconnects.base_index() == old(self).disconnects.base_index(),
            final(self).disconnects.receiver_active(rid as int),
            final(self).disconnects.cursor_at(rid as int) == old(self).disconnects.history().len(),
            final(self).disconnects.cursor_start(rid as int) == old(self).disconnects.history().len(),
            final(self).connecting == old(self).connecting,
            final(self).state_updated == old(self).state_updated,
            final(self).discoveries == old(self).discoveries,
            final(self).connection_events == old(self).connection_events,
            final(self).ancs_authorization_updates == old(self).ancs_authorization_updates,
            final(self).scanning == old(self).scanning,
    {
        self.disconnects.new_receiver()
    }

    /// Decides a cancel-connection request from the peripheral's current
    /// state: the imperative cancel call is owed exactly when the
    /// peripheral is connecting or connected, and a disconnect event is
    /// awaited exactly when it was connected.
    pub fn cancel_peripheral_connection(
        &mut self,
        peripheral: PeripheralId,
        state: PeripheralState,
    ) -> (r: CancelRequest)
        requires
            old(self).wf(),
            old(self).disconnects.receivers() < usize::MAX,
        ensures
            final(self).wf(),
            r.issue_cancel == (state == PeripheralState::Connecting || state
                == PeripheralState::Connected),
            final(self).disconnects.history() == old(self).disconnects.history(),
            final(self).disconnects.capacity() == old(self).disconnects.capacity(),
            final(self).disconnects.base_index() == old(self).disconnects.base_index(),
            final(self).connecting == old(self).connecting,
            final(self).state_updated == old(self).state_updated,
            final(self).discoveries == old(self).discoveries,
            final(self).connection_events == old(self).connection_events,
            final(self).ancs_authorization_updates == old(self).ancs_authorization_updates,
            final(self).scanning == old(self).scanning,
            match r.plan {
                CancelPlan::AwaitDisconnect { rid } => {
                    &&& state == PeripheralState::Connected
                    &&& rid == old(self).disconnects.receivers()
                    &&& final(self).disconnects.receivers() == old(self).disconnects.receivers()
                        + 1
                    &&& final(self).disconnects.receiver_active(rid as int)
                    &&& final(self).disconnects.cursor_at(rid as int) == old(self).disconnects.history().len()
                    &&& final(self).disconnects.cursor_start(rid as int) == old(self).disconnects.history().len()
                },
                CancelPlan::NoEvent => {
                    &&& state != PeripheralState::Connected
                    &&& final(self).disconnects == old(self).disconnects
                },
            },
    {
        let issue_cancel = state == PeripheralState::Connecting || state
            == PeripheralState::Connected;
        if state == PeripheralState::Connected {
            let rid = self.disconnects.new_receiver();
            CancelRequest { issue_cancel, plan: CancelPlan::AwaitDisconnect { rid } }
        } else {
            CancelRequest { issue_cancel, plan: CancelPlan::NoEvent }
        }
    }

    /// Drains the disconnect stream on behalf of a cancel-connection
    /// request: events of other peripherals are read and discarded, and the
    /// request completes only on an event of the awaited peripheral.  When
    /// every available event is examined without a match, the request stays
    /// pending and this is called again after the next publish.
    pub fn poll_disconnect(&mut self, rid: usize, peripheral: PeripheralId) -> (r: DisconnectWait)
        requires
            old(self).wf(),
            rid < old(self).disconnects.receivers(),
            old(self).disconnects.receiver_active(rid as int),
        ensures
            final(self).wf(),
            final(self).disconnects.history() == old(self).disconnects.history(),
            final(self).disconnects.capacity() == old(self).disconnects.capacity(),
            final(self).disconnects.receivers() == old(self).disconnects.receivers(),
            final(self).disconnects.receiver_active(rid as int),
            final(self).disconnects.base_index() == old(self).disconnects.base_index(),
            final(self).disconnects.cursor_start(rid as int) == old(self).disconnects.cursor_start(
                rid as int,
            ) || final(self).disconnects.cursor_start(rid as int) == old(self).disconnects.base_index(),
            final(self).connecting == old(self).connecting,
            final(self).state_updated == old(self).state_updated,
            final(self).discoveries == old(self).discoveries,
            final(self).connection_events == old(self).connection_events,
            final(self).ancs_authorization_updates == old(self).ancs_authorization_updates,
            final(self).scanning == old(self).scanning,
            match r {
                DisconnectWait::Matched(e) => {
                    &&& e.peripheral == peripheral
                    &&& exists|i: int|
                        old(self).disconnects.cursor_at(rid as int) <= i < old(self).disconnects.history().len() && e == (#[trigger] old(self).disconnects.history()[i]) && final(self).disconnects.cursor_at(rid as int)
                            == i + 1
                },
                DisconnectWait::Pending => {
                    &&& final(self).disconnects.cursor_at(rid as int) == old(self).disconnects.history().len()
                    &&& forall|j: int|
                        old(self).disconnects.cursor_at(rid as int) <= j < old(self).disconnects.history().len() && final(self).disconnects.cursor_start(
                            rid as int,
                        ) <= j ==> (#[trigger] old(self).disconnects.history()[j]).peripheral
                            != peripheral
                },
            },
    {
        proof {
            crate::relay::lemma_cursor_bounds(self.disconnects, rid as int);
        }
        loop
            invariant
                self.wf(),
                rid < self.disconnects.receivers(),
                self.disconnects.receiver_active(rid as int),
                self.disconnects.history() == old(self).disconnects.history(),
                self.disconnects.capacity() == old(self).disconnects.capacity(),
                self.disconnects.receivers() == old(self).disconnects.receivers(),
                old(self).disconnects.cursor_at(rid as int) <= self.disconnects.cursor_at(
                    rid as int,
                ),
                self.disconnects.cursor_at(rid as int) <= self.disconnects.history().len(),
                self.disconnects.cursor_start(rid as int) <= self.disconnects.cursor_at(
                    rid as int,
                ),
                self.disconnects.base_index() == old(self).disconnects.base_index(),
                self.disconnects.cursor_start(rid as int) == old(self).disconnects.cursor_start(
                    rid as int,
                ) || self.disconnects.cursor_start(rid as int) == old(self).disconnects.base_index(),
                self.connecting == old(self).connecting,
                self.state_updated == old(self).state_updated,
                self.discoveries == old(self).discoveries,
                self.connection_events == old(self).connection_events,
                self.ancs_authorization_updates == old(self).ancs_authorization_updates,
                self.scanning == old(self).scanning,
                forall|j: int|
                    old(self).disconnects.cursor_at(rid as int) <= j < self.disconnects.cursor_at(
                        rid as int,
                    ) && self.disconnects.cursor_start(rid as int) <= j ==> (
                    #[trigger] self.disconnects.history()[j]).peripheral != peripheral,
            decreases self.disconnects.history().len() - self.disconnects.cursor_at(rid as int),
        {
            proof {
                crate::relay::lemma_cursor_bounds(self.disconnects, rid as int);
            }
            match self.disconnects.recv(rid) {
                TopicRecv::Item(e) => {
                    if e.peripheral == peripheral {
                        return DisconnectWait::Matched(e);
                    }
                },
                TopicRecv::Lagged => {},
                TopicRecv::Pending => {
                    return DisconnectWait::Pending;
                },
            }
        }
    }

    /// Starts scanning for peripherals.
    ///
    /// The caller must first check [`Self::scanning_now`]: the platform
    /// does not support concurrent scans, and a second scan while one is
    /// active is a programming error, not a recoverable one.  The returned
    /// filter is what the imperative scan-start call carries, untouched;
    /// discoveries then flow through `discoveries` until the consumer drops
    /// the stream.
    pub fn scan(
        &mut self,
        services: Option<Vec<BluetoothUuid>>,
        allow_duplicates: bool,
        solicited_services: Option<Vec<BluetoothUuid>>,
    ) -> (filter: ScanFilter)
        requires
            old(self).wf(),
            !old(self).is_scanning(),
        ensures
            final(self).wf(),
            final(self).is_scanning(),
            final(self).discoveries.is_open(),
            final(self).discoveries.consumer_alive(),
            final(self).discoveries.emitted() == Seq::<DidDiscover>::empty(),
            final(self).discoveries.taken() == Seq::<DidDiscover>::empty(),
            final(self).discoveries.pending() == Seq::<DidDiscover>::empty(),
            filter.services == services,
            filter.allow_duplicates == allow_duplicates,
            filter.solicited_services == solicited_services,
            final(self).connecting == old(self).connecting,
            final(self).state_updated == old(self).state_updated,
            final(self).disconnects == old(self).disconnects,
            final(self).connection_events == old(self).connection_events,
            final(self).ancs_authorization_updates == old(self).ancs_authorization_updates,
    {
        self.scanning = true;
        self.discoveries.start();
        ScanFilter { services, allow_duplicates, solicited_services }
    }

    /// The platform discovered a peripheral.  With a live consumer the
    /// event joins the stream in order; if the consumer dropped the stream,
    /// the slot is cleared, the event is dropped, and the imperative
    /// stop-scan call must be issued now so the radio does not keep
    /// scanning unobserved; with no active stream the event is dropped
    /// silently.
    pub fn did_discover(&mut self, discovery: DidDiscover) -> (r: EmitOutcome)
        requires
            old(self).wf(),
        ensures
            final(self).wf(),
            final(self).discoveries.taken() == old(self).discoveries.taken(),
            final(self).connecting == old(self).connecting,
            final(self).state_updated == old(self).state_updated,
            final(self).disconnects == old(self).disconnects,
            final(self).connection_events == old(self).connection_events,
            final(self).ancs_authorization_updates == old(self).ancs_authorization_updates,
            match r {
                EmitOutcome::Delivered => {
                    &&& old(self).discoveries.is_open() && old(self).discoveries.consumer_alive()
                    &&& final(self).discoveries.is_open() && final(self).discoveries.consumer_alive()
                    &&& final(self).discoveries.emitted() == old(self).discoveries.emitted().push(discovery)
                    &&& final(self).discoveries.pending() == old(self).discoveries.pending().push(discovery)
                    &&& final(self).scanning == old(self).scanning
                },
                EmitOutcome::HaltProducer => {
                    &&& old(self).discoveries.is_open() && !old(self).discoveries.consumer_alive()
                    &&& !final(self).discoveries.is_open()
                    &&& final(self).discoveries.emitted() == old(self).discoveries.emitted()
                    &&& final(self).discoveries.pending() == old(self).discoveries.pending()
                    &&& !final(self).scanning
                },
                EmitOutcome::NoSlot => {
                    &&& !old(self).discoveries.is_open()
                    &&& final(self).discoveries == old(self).discoveries
                    &&& final(self).scanning == old(self).scanning
                },
            },
    {
        let r = self.discoveries.emit(discovery);
        if let EmitOutcome::HaltProducer = r {
            self.scanning = false;
        }
        r
    }

    /// The scan was stopped by the imperative stop-scan call.
    pub fn stop_scan(&mut self)
        requires
            old(self).wf(),
        ensures
            final(self).wf(),
            !final(self).is_scanning(),
            final(self).discoveries == old(self).discoveries,
            final(self).connecting == old(self).connecting,
            final(self).state_updated == old(self).state_updated,
            final(self).disconnects == old(self).disconnects,
            final(self).connection_events == old(self).connection_events,
            final(self).ancs_authorization_updates == old(self).ancs_authorization_updates,
    {
        self.scanning = false;
    }

    /// A connection event occurred for a registered peripheral: publish it.
    pub fn on_connection_event(&mut self, event: ConnectionEvent)
        requires
            old(self).wf(),
            old(self).connection_events.history().len() < u64::MAX,
        ensures
            final(self).wf(),
            final(self).connection_events.history() == old(self).connection_events.history().push(event),
            final(self).connection_events.capacity() == old(self).connection_events.capacity(),
            final(self).connection_events.receivers() == old(self).connection_events.receivers(),
            final(self).connection_events.base_index() == if old(self).connection_events.history().len() - old(self).connection_events.base_index() == old(self).connection_events.capacity() {
                old(self).connection_events.base_index() + 1
            } else {
                old(self).connection_events.base_index()
            },
            forall|r: int|
                0 <= r < old(self).connection_events.receivers() ==> (#[trigger] final(self).connection_events.receiver_active(r)) == old(self).connection_events.receiver_active(r),
            forall|r: int|
                0 <= r < old(self).connection_events.receivers() ==> (#[trigger] final(self).connection_events.cursor_at(r)) == old(self).connection_events.cursor_at(r),
            forall|r: int|
                0 <= r < old(self).connection_events.receivers() ==> (#[trigger] final(self).connection_events.cursor_start(r)) == old(self).connection_events.cursor_start(r),
            forall|r: int|
                0 <= r < old(self).connection_events.receivers() ==> (#[trigger] final(self).connection_events.cursor_got(r)) == old(self).connection_events.cursor_got(r),
            final(self).connecting == old(self).connecting,
            final(self).state_updated == old(self).state_updated,
            final(self).disconnects == old(self).disconnects,
            final(self).discoveries == old(self).discoveries,
            final(self).ancs_authorization_updates == old(self).ancs_authorization_updates,
            final(self).scanning == old(self).scanning,
    {
        self.connection_events.try_broadcast(event);
    }

    /// Subscribes to connection events, starting at "now".
    pub fn connection_events(&mut self) -> (rid: usize)
        requires
            old(self).wf(),
            old(self).connection_events.receivers() < usize::MAX,
        ensures
            final(self).wf(),
            rid == old(self).connection_events.receivers(),
            final(self).connection_events.receivers() == old(self).connection_events.receivers()
                + 1,
            final(self).connection_events.history() == old(self).connection_events.history(),
            final(self).connection_events.receiver_active(rid as int),
            final(self).connection_events.cursor_at(rid as int) == old(self).connection_events.history().len(),
            final(self).connecting == old(self).connecting,
            final(self).state_updated == old(self).state_updated,
            final(self).disconnects == old(self).disconnects,
            final(self).discoveries == old(self).discoveries,
            final(self).ancs_authorization_updates == old(self).ancs_authorization_updates,
            final(self).scanning == old(self).scanning,
    {
        self.connection_events.new_receiver()
    }

    /// A peripheral's ANCS authorization changed: publish it.
    pub fn did_update_ancs_authorization(&mut self, peripheral: PeripheralId)
        requires
            old(self).wf(),
            old(self).ancs_authorization_updates.history().len() < u64::MAX,
        ensures
            final(self).wf(),
            final(self).ancs_authorization_updates.history() == old(self).ancs_authorization_updates.history().push(peripheral),
            final(self).ancs_authorization_updates.receivers() == old(self).ancs_authorization_updates.receivers(),
            final(self).connecting == old(self).connecting,
            final(self).state_updated == old(self).state_updated,
            final(self).disconnects == old(self).disconnects,
            final(self).discoveries == old(self).discoveries,
            final(self).connection_events == old(self).connection_events,
            final(self).scanning == old(self).scanning,
    {
        self.ancs_authorization_updates.try_broadcast(peripheral);
    }

    /// Subscribes to ANCS authorization updates, starting at "now".
    pub fn ancs_authorization_updates(&mut self) -> (rid: usize)
        requires
            old(self).wf(),
            old(self).ancs_authorization_updates.receivers() < usize::MAX,
        ensures
            final(self).wf(),
            rid == old(self).ancs_authorization_updates.receivers(),
            final(self).ancs_authorization_updates.receivers() == old(self).ancs_authorization_updates.receivers() + 1,
            final(self).ancs_authorization_updates.history() == old(self).ancs_authorization_updates.history(),
            final(self).ancs_authorization_updates.receiver_active(rid as int),
            final(self).connecting == old(self).connecting,
            final(self).state_updated == old(self).state_updated,
            final(self).disconnects == old(self).disconnects,
            final(self).discoveries == old(self).discoveries,
            final(self).connection_events == old(self).connection_events,
            final(self).scanning == old(self).scanning,
    {
        self.ancs_authorization_updates.new_receiver()
    }
}

/// The compensating action of an abandoned connect request: the connection
/// must be canceled exactly when the peripheral still stands in
/// `Connecting`; in every other state there is nothing to compensate.
pub fn connect_cleanup(guard: ScopeGuard<PeripheralId>, state: PeripheralState) -> (r: Option<
    PeripheralId,
>)
    ensures
        r == if state == PeripheralState::Connecting {
            Some(guard.payload())
        } else {
            None::<PeripheralId>
        },
{
    let p = guard.fire();
    if state == PeripheralState::Connecting {
        Some(p)
    } else {
        None
    }
}

/// Law: of two connect requests racing on one peripheral, exactly one stays
/// pending.  The second registration supersedes the first: the first
/// caller's ticket is reported superseded (it observes a canceled error,
/// not a hang) and the slot holds only the second ticket, so a later
/// connection callback can only ever fulfil the second caller.
pub proof fn lemma_racing_connects_cancel_first(
    s0: CentralManagerAsync,
    s1: CentralManagerAsync,
    s2: CentralManagerAsync,
    p: PeripheralId,
    r1: Registration,
    r2: Registration,
)
    requires
        CentralManagerAsync::connect_post(s0, s1, p, r1),
        CentralManagerAsync::connect_post(s1, s2, p, r2),
    ensures
        r2.superseded == Some(r1.ticket),
        s2.connecting.slots().contains_key(p.0),
        s2.connecting.slots()[p.0] == r2.ticket,
        r1.ticket != r2.ticket,
{
}

} // verus!
