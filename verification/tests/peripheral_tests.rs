//! Behaviour of the peripheral scope: discovery, reads, writes,
//! notifications, the readiness gate and the channel-open slot.

use corebluetooth_async::error::{AttError, CbError, Error, ErrorKind};
use corebluetooth_async::ids::{
    CharacteristicId, CharacteristicWriteType, DescriptorId, PeripheralId, ServiceId,
};
use corebluetooth_async::peripheral::{
    NotifyUpdate, Outcome, PeripheralAsync, ReadyGate, RssiUpdate, UpdateDisposition, ValueUpdate,
};
use corebluetooth_async::relay::TopicRecv;

fn fresh() -> PeripheralAsync {
    PeripheralAsync::new(PeripheralId(0x42))
}

fn att_error() -> Error {
    Error::from(ErrorKind::ATT(AttError(2)))
}

#[test]
fn read_returns_the_value_present_when_the_callback_fired() {
    // Read-after-notify: the read subscribes first, the update callback
    // carries the value read from the characteristic at that moment, and
    // that exact value reaches the awaiting reader.
    let mut p = fresh();
    let c = CharacteristicId(11);
    let rid = p.read_characteristic_value(c);
    let disp = p.did_update_value_for_characteristic(c, Outcome::Done, vec![1, 2, 3]);
    assert_eq!(disp, UpdateDisposition::Published);
    match p.characteristic_value_updates.receive(c.0, rid) {
        TopicRecv::Item(ValueUpdate::Value(v)) => assert_eq!(v, vec![1, 2, 3]),
        _ => panic!("the reader must observe exactly the callback-time value"),
    }
    assert!(matches!(
        p.characteristic_value_updates.receive(c.0, rid),
        TopicRecv::Pending
    ));
}

#[test]
fn every_value_subscriber_observes_every_notification() {
    let mut p = fresh();
    let c = CharacteristicId(12);
    let a = p.characteristic_value_updates(c);
    let b = p.characteristic_value_updates(c);
    assert_eq!(
        p.did_update_value_for_characteristic(c, Outcome::Done, vec![1]),
        UpdateDisposition::Published
    );
    assert_eq!(
        p.did_update_value_for_characteristic(c, Outcome::Done, vec![2]),
        UpdateDisposition::Published
    );
    for rid in [a, b] {
        for expected in [vec![1u8], vec![2u8]] {
            match p.characteristic_value_updates.receive(c.0, rid) {
                TopicRecv::Item(ValueUpdate::Value(v)) => assert_eq!(v, expected),
                _ => panic!("each subscriber sees each update once, in order"),
            }
        }
    }
}

#[test]
fn failed_update_reaches_the_subscriber_as_the_error() {
    let mut p = fresh();
    let c = CharacteristicId(13);
    let rid = p.characteristic_value_updates(c);
    let disp = p.did_update_value_for_characteristic(c, Outcome::Failed(att_error()), Vec::new());
    assert_eq!(disp, UpdateDisposition::Published);
    match p.characteristic_value_updates.receive(c.0, rid) {
        TopicRecv::Item(ValueUpdate::Failed(e)) => {
            assert_eq!(e.kind(), ErrorKind::ATT(AttError(2)));
        },
        _ => panic!("the failure must reach the subscriber"),
    }
}

#[test]
fn value_topic_is_collected_once_nobody_subscribes() {
    let mut p = fresh();
    let c = CharacteristicId(14);
    let rid = p.characteristic_value_updates(c);
    p.characteristic_value_updates.unsubscribe(c.0, rid);
    // The next update finds no subscribers: the topic is collected and the
    // update dropped.
    assert_eq!(
        p.did_update_value_for_characteristic(c, Outcome::Done, vec![9]),
        UpdateDisposition::Collected
    );
    // After collection there is no topic at all.
    assert_eq!(
        p.did_update_value_for_characteristic(c, Outcome::Done, vec![9]),
        UpdateDisposition::NoTopic
    );
}

#[test]
fn update_for_an_unobserved_characteristic_is_a_no_op() {
    let mut p = fresh();
    assert_eq!(
        p.did_update_value_for_characteristic(CharacteristicId(99), Outcome::Done, vec![1]),
        UpdateDisposition::NoTopic
    );
}

#[test]
fn included_service_discovery_fulfils_its_waiter() {
    let mut p = fresh();
    let s = ServiceId(21);
    let r = p.discover_included_services(s);
    assert_eq!(
        p.did_discover_included_services(s, Outcome::Done),
        Some((r.ticket, Outcome::Done))
    );
    // Consumed exactly once.
    assert_eq!(p.did_discover_included_services(s, Outcome::Done), None);
}

#[test]
fn characteristic_discovery_keyed_by_service() {
    let mut p = fresh();
    let s1 = ServiceId(1);
    let s2 = ServiceId(2);
    let r1 = p.discover_characteristics(s1);
    let r2 = p.discover_characteristics(s2);
    // Completions correlate by service identity, not by order.
    assert_eq!(p.did_discover_characteristics(s2, Outcome::Done), Some((r2.ticket, Outcome::Done)));
    assert_eq!(p.did_discover_characteristics(s1, Outcome::Done), Some((r1.ticket, Outcome::Done)));
}

#[test]
fn descriptor_discovery_and_write_complete_by_characteristic_and_descriptor() {
    let mut p = fresh();
    let c = CharacteristicId(31);
    let d = DescriptorId(41);
    let rd = p.discover_descriptors(c);
    assert_eq!(
        p.did_discover_descriptors_for_characteristic(c, Outcome::Done),
        Some((rd.ticket, Outcome::Done))
    );
    let w = p.write_descriptor_value(d, vec![7, 8]);
    assert_eq!(w.data, vec![7, 8]);
    assert_eq!(
        p.did_write_value_for_descriptor(d, Outcome::Failed(att_error())).map(|(t, _)| t),
        Some(w.registration.ticket)
    );
}

#[test]
fn descriptor_read_delivers_the_callback_time_value() {
    let mut p = fresh();
    let d = DescriptorId(42);
    let r = p.read_descriptor_value(d);
    match p.did_update_value_for_descriptor(d, Outcome::Done, vec![0x10, 0x20]) {
        Some((t, ValueUpdate::Value(v))) => {
            assert_eq!(t, r.ticket);
            assert_eq!(v, vec![0x10, 0x20]);
        },
        _ => panic!("the pending read must be fulfilled with the current value"),
    }
    assert_eq!(p.did_update_value_for_descriptor(d, Outcome::Done, vec![1]), None);
}

#[test]
fn characteristic_write_fulfils_its_waiter() {
    let mut p = fresh();
    let c = CharacteristicId(33);
    let w = p.write_characteristic_value(c, vec![1, 2], CharacteristicWriteType::WithResponse);
    assert_eq!(w.data, vec![1, 2]);
    assert_eq!(w.write_type, CharacteristicWriteType::WithResponse);
    assert_eq!(
        p.did_write_value_for_characteristic(c, Outcome::Done),
        Some((w.registration.ticket, Outcome::Done))
    );
    // A write-without-response needs no completion slot here; the callback
    // with no slot pending is a no-op.
    assert_eq!(p.did_write_value_for_characteristic(c, Outcome::Done), None);
}

#[test]
fn notify_toggle_reports_the_notifying_state_at_callback_time() {
    let mut p = fresh();
    let c = CharacteristicId(34);
    let r = p.set_notify(c, true);
    assert!(r.notify);
    assert_eq!(
        p.did_update_notification_state_for_characteristic(c, Outcome::Done, true),
        Some((r.registration.ticket, NotifyUpdate::Notifying(true)))
    );
    let r2 = p.set_notify(c, false);
    assert_eq!(
        p.did_update_notification_state_for_characteristic(c, Outcome::Failed(att_error()), false),
        Some((r2.registration.ticket, NotifyUpdate::Failed(att_error())))
    );
}

#[test]
fn ready_gate_returns_at_once_with_capacity() {
    let mut p = fresh();
    assert!(matches!(p.ready_to_send_write_without_response(true), ReadyGate::Ready));
}

#[test]
fn ready_gate_awaits_and_sees_a_retained_signal() {
    let mut p = fresh();
    // The readiness signal fires before the waiter subscribes; because the
    // watch retains its latest value, the awaiting side still observes it.
    p.is_ready_to_send_write_without_response();
    match p.ready_to_send_write_without_response(false) {
        ReadyGate::Await { rid } => {
            assert_eq!(p.ready_to_send_write_without_response.recv(rid), Some(()));
        },
        ReadyGate::Ready => panic!("without capacity the caller must await the signal"),
    }
}

#[test]
fn ready_gate_wakes_on_a_later_signal() {
    let mut p = fresh();
    match p.ready_to_send_write_without_response(false) {
        ReadyGate::Await { rid } => {
            assert_eq!(p.ready_to_send_write_without_response.recv(rid), None);
            p.is_ready_to_send_write_without_response();
            assert_eq!(p.ready_to_send_write_without_response.recv(rid), Some(()));
        },
        ReadyGate::Ready => panic!("without capacity the caller must await the signal"),
    }
}

#[test]
fn rssi_read_retains_the_latest_reading() {
    let mut p = fresh();
    let rid = p.read_rssi();
    p.did_read_rssi(RssiUpdate::Rssi(-51));
    assert_eq!(p.rssi_updates.recv(rid), Some(RssiUpdate::Rssi(-51)));
}

#[test]
fn service_discovery_outcome_reaches_the_waiter() {
    let mut p = fresh();
    let rid = p.discover_services();
    p.did_discover_services(Outcome::Failed(Error::from(ErrorKind::Bluetooth(CbError(3)))));
    match p.service_discovery.recv(rid) {
        Some(Outcome::Failed(e)) => assert_eq!(e.kind(), ErrorKind::Bluetooth(CbError(3))),
        _ => panic!("the discovery outcome must arrive"),
    }
}

#[test]
fn name_and_services_changed_streams_flow() {
    let mut p = fresh();
    let n = p.name_updates();
    p.did_update_name(Some(String::from("sensor")));
    assert_eq!(p.name_updates.recv(n), Some(Some(String::from("sensor"))));
    let s = p.services_changed();
    p.did_modify_services(vec![ServiceId(1), ServiceId(2)]);
    match p.services_changed.recv(s) {
        TopicRecv::Item(list) => assert_eq!(list, vec![ServiceId(1), ServiceId(2)]),
        _ => panic!("the invalidation must arrive"),
    }
}

#[test]
fn channel_open_slot_is_single_and_replacing() {
    let mut p = fresh();
    let r1 = p.open_l2cap_channel(0x25);
    assert_eq!(r1.psm, 0x25);
    assert_eq!(r1.registration.superseded, None);
    // A second request replaces the first: the first waiter observes
    // cancellation.
    let r2 = p.open_l2cap_channel(0x31);
    assert_eq!(r2.registration.superseded, Some(r1.registration.ticket));
    assert_eq!(p.did_open_l2cap_channel(), Some(r2.registration.ticket));
    assert_eq!(p.did_open_l2cap_channel(), None);
}
