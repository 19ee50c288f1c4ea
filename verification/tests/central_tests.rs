//! Behaviour of the central-manager scope: connect, cancel, scan.

use corebluetooth_async::advertisement_data::AdvertisementData;
use corebluetooth_async::central_manager::{
    connect_cleanup, CancelPlan, CentralManagerAsync, ConnectOptionKey, ConnectPeripheralOptions,
    DidDisconnect, DidDiscover, DisconnectWait,
};
use corebluetooth_async::ids::{BluetoothUuid, ManagerState, PeripheralId, PeripheralState};
use corebluetooth_async::central_manager::ConnectionEvent;
use corebluetooth_async::error::{CbError, Error, ErrorKind};
use corebluetooth_async::ids::ConnectionEventKind;
use corebluetooth_async::relay::TopicRecv;
use corebluetooth_async::scan_queue::EmitOutcome;

fn adv() -> AdvertisementData {
    AdvertisementData {
        local_name: None,
        manufacturer_data: None,
        service_data: Vec::new(),
        service_uuids: Vec::new(),
        overflow_service_uuids: Vec::new(),
        tx_power_level: None,
        is_connectable: true,
        solicited_service_uuids: Vec::new(),
    }
}

fn discovery(p: u128, rssi: i16) -> DidDiscover {
    DidDiscover { peripheral: PeripheralId(p), advertisement_data: adv(), rssi }
}

fn disconnect(p: u128) -> DidDisconnect {
    DidDisconnect {
        peripheral: PeripheralId(p),
        timestamp: None,
        is_reconnecting: false,
        error: None,
    }
}

#[test]
fn racing_connects_cancel_the_first_waiter() {
    let mut m = CentralManagerAsync::new();
    let p = PeripheralId(7);
    let r1 = m.connect(p);
    let r2 = m.connect(p);
    // The second registration supersedes the first: its waiter is told it
    // was canceled instead of hanging.
    assert_eq!(r2.registration.superseded, Some(r1.registration.ticket));
    assert_ne!(r1.registration.ticket, r2.registration.ticket);
    // The connection callback fulfils only the second waiter, exactly once.
    assert_eq!(m.did_connect(p), Some(r2.registration.ticket));
    assert_eq!(m.did_connect(p), None);
}

#[test]
fn connect_failure_hands_back_the_platform_error() {
    let mut m = CentralManagerAsync::new();
    let p = PeripheralId(3);
    let r = m.connect(p);
    assert_eq!(r.registration.superseded, None);
    let e = Error::from(ErrorKind::Bluetooth(CbError(10)));
    match m.did_fail_to_connect(p, e) {
        Some((t, err)) => {
            assert_eq!(t, r.registration.ticket);
            assert_eq!(err.kind(), ErrorKind::Bluetooth(CbError(10)));
        },
        None => panic!("the pending waiter must be fulfilled"),
    }
    assert_eq!(m.did_connect(p), None);
}

#[test]
fn connect_guard_fires_only_while_connecting() {
    let mut m = CentralManagerAsync::new();
    let p = PeripheralId(9);
    let r = m.connect(p);
    // Abandoned while the platform still reports Connecting: the
    // compensating cancel call targets exactly this peripheral.
    assert_eq!(connect_cleanup(r.guard, PeripheralState::Connecting), Some(p));
    let r2 = m.connect(p);
    // Abandoned after the state moved on: nothing to compensate.
    assert_eq!(connect_cleanup(r2.guard, PeripheralState::Connected), None);
}

#[test]
fn connect_options_carry_exactly_the_enabled_flags() {
    let options = ConnectPeripheralOptions {
        enable_auto_reconnect: true,
        enable_transport_bridging: false,
        notify_on_connection: false,
        notify_on_disconnection: true,
        notify_on_notification: false,
        requires_ancs: false,
    };
    assert_eq!(
        options.option_keys(),
        vec![ConnectOptionKey::EnableAutoReconnect, ConnectOptionKey::NotifyOnDisconnection]
    );
    assert_eq!(ConnectPeripheralOptions::default().option_keys(), Vec::new());
}

#[test]
fn cancel_waits_for_the_matching_disconnect_only() {
    // Peripherals A and B both connected; cancel(A); B's disconnect fires
    // first and is ignored; A's disconnect fires second and completes the
    // request.
    let mut m = CentralManagerAsync::new();
    let a = PeripheralId(1);
    let r = m.cancel_peripheral_connection(a, PeripheralState::Connected);
    assert!(r.issue_cancel);
    let rid = match r.plan {
        CancelPlan::AwaitDisconnect { rid } => rid,
        CancelPlan::NoEvent => panic!("a connected peripheral owes a disconnect event"),
    };
    assert!(matches!(m.poll_disconnect(rid, a), DisconnectWait::Pending));
    m.did_disconnect(disconnect(2));
    assert!(matches!(m.poll_disconnect(rid, a), DisconnectWait::Pending));
    m.did_disconnect(disconnect(1));
    match m.poll_disconnect(rid, a) {
        DisconnectWait::Matched(e) => assert_eq!(e.peripheral, a),
        DisconnectWait::Pending => panic!("the matching disconnect must complete the request"),
    }
}

#[test]
fn cancel_of_an_unconnected_peripheral_returns_no_event() {
    let mut m = CentralManagerAsync::new();
    let p = PeripheralId(5);
    let r = m.cancel_peripheral_connection(p, PeripheralState::Disconnected);
    assert!(!r.issue_cancel);
    assert!(matches!(r.plan, CancelPlan::NoEvent));
    // Connecting: the cancel call is issued, but no disconnect is awaited.
    let r = m.cancel_peripheral_connection(p, PeripheralState::Connecting);
    assert!(r.issue_cancel);
    assert!(matches!(r.plan, CancelPlan::NoEvent));
}

#[test]
fn scan_stream_yields_discoveries_in_order() {
    let mut m = CentralManagerAsync::new();
    assert!(!m.scanning_now());
    let filter = m.scan(None, true, None);
    assert!(filter.services.is_none());
    assert!(filter.allow_duplicates);
    assert!(m.scanning_now());
    assert_eq!(m.did_discover(discovery(1, -40)), EmitOutcome::Delivered);
    assert_eq!(m.did_discover(discovery(2, -50)), EmitOutcome::Delivered);
    assert_eq!(m.did_discover(discovery(3, -60)), EmitOutcome::Delivered);
    for i in 1..=3u128 {
        let d = m.discoveries.try_next().expect("a queued discovery");
        assert_eq!(d.peripheral, PeripheralId(i));
    }
    assert!(m.discoveries.try_next().is_none());
}

#[test]
fn dropped_scan_stream_halts_the_scan_on_the_next_discovery() {
    let mut m = CentralManagerAsync::new();
    m.scan(None, false, None);
    assert_eq!(m.did_discover(discovery(1, -40)), EmitOutcome::Delivered);
    m.discoveries.drop_receiver();
    // The next discovery finds the consumer gone: it is dropped, the slot
    // is cleared, and the imperative stop-scan call is owed now.
    assert_eq!(m.did_discover(discovery(2, -50)), EmitOutcome::HaltProducer);
    assert!(!m.scanning_now());
    // Later discoveries find no slot at all and are ignored silently.
    assert_eq!(m.did_discover(discovery(3, -60)), EmitOutcome::NoSlot);
}

#[test]
fn second_scan_is_gated_on_the_first() {
    let mut m = CentralManagerAsync::new();
    m.scan(None, false, None);
    // The platform does not support concurrent scans: while one is active
    // the precondition of a second one fails and the caller must not issue
    // any imperative call.  Stopping the scan re-opens it.
    assert!(m.scanning_now());
    m.stop_scan();
    assert!(!m.scanning_now());
    let filter = m.scan(
        Some(vec![BluetoothUuid::Uuid16(0x180d), BluetoothUuid::Uuid128(0xfe00_1234)]),
        false,
        Some(vec![BluetoothUuid::Uuid32(0x1800_0000)]),
    );
    // The UUID filters pass through to the imperative scan call untouched.
    assert_eq!(
        filter.services,
        Some(vec![BluetoothUuid::Uuid16(0x180d), BluetoothUuid::Uuid128(0xfe00_1234)])
    );
    assert_eq!(filter.solicited_services, Some(vec![BluetoothUuid::Uuid32(0x1800_0000)]));
    assert!(m.scanning_now());
}

#[test]
fn discovery_without_a_scan_is_ignored() {
    let mut m = CentralManagerAsync::new();
    assert_eq!(m.did_discover(discovery(1, -40)), EmitOutcome::NoSlot);
}

#[test]
fn state_updates_retain_the_latest_state() {
    let mut m = CentralManagerAsync::new();
    m.did_update_state(ManagerState::PoweredOff);
    m.did_update_state(ManagerState::PoweredOn);
    let rid = m.state_updates();
    assert_eq!(m.state_updated.recv(rid), Some(ManagerState::PoweredOn));
    assert_eq!(m.state_updated.recv(rid), None);
}

#[test]
fn disconnect_events_reach_every_subscriber() {
    let mut m = CentralManagerAsync::new();
    let a = m.disconnections();
    let b = m.disconnections();
    m.did_disconnect(disconnect(4));
    for rid in [a, b] {
        match m.disconnects.recv(rid) {
            TopicRecv::Item(e) => assert_eq!(e.peripheral, PeripheralId(4)),
            _ => panic!("both subscribers observe the disconnect"),
        }
    }
}

#[test]
fn connection_events_and_ancs_updates_flow() {
    let mut m = CentralManagerAsync::new();
    let ce = m.connection_events();
    let an = m.ancs_authorization_updates();
    m.on_connection_event(ConnectionEvent {
        peripheral: PeripheralId(8),
        event: ConnectionEventKind::PeerConnected,
    });
    m.did_update_ancs_authorization(PeripheralId(8));
    match m.connection_events.recv(ce) {
        TopicRecv::Item(e) => {
            assert_eq!(e.peripheral, PeripheralId(8));
            assert_eq!(e.event, ConnectionEventKind::PeerConnected);
        },
        _ => panic!("the connection event must arrive"),
    }
    match m.ancs_authorization_updates.recv(an) {
        TopicRecv::Item(p) => assert_eq!(p, PeripheralId(8)),
        _ => panic!("the authorization update must arrive"),
    }
}
