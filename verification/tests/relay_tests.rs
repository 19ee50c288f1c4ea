//! Behaviour of the watch and broadcast relays.

use corebluetooth_async::ids::{ManagerState, PeripheralId};
use corebluetooth_async::relay::{BroadcastTopic, TopicRecv, WatchTopic};
use corebluetooth_async::util::{broadcast, watch};

#[test]
fn watch_new_receiver_sees_latest_value() {
    let mut t: WatchTopic<ManagerState> = watch();
    t.try_broadcast(ManagerState::PoweredOff);
    t.try_broadcast(ManagerState::PoweredOn);
    let rid = t.new_receiver();
    assert_eq!(t.recv(rid), Some(ManagerState::PoweredOn));
    assert_eq!(t.recv(rid), None);
}

#[test]
fn watch_overwrites_without_lag() {
    let mut t: WatchTopic<ManagerState> = watch();
    let rid = t.new_receiver();
    assert_eq!(t.recv(rid), None);
    t.try_broadcast(ManagerState::Resetting);
    t.try_broadcast(ManagerState::Unauthorized);
    t.try_broadcast(ManagerState::PoweredOn);
    // Only the latest value is retained; the overwritten ones are gone and
    // no error of any kind is reported.
    assert_eq!(t.recv(rid), Some(ManagerState::PoweredOn));
    assert_eq!(t.recv(rid), None);
}

#[test]
fn watch_publish_with_no_receivers_is_fine() {
    let mut t: WatchTopic<ManagerState> = watch();
    t.try_broadcast(ManagerState::PoweredOn);
    let rid = t.new_receiver();
    assert_eq!(t.recv(rid), Some(ManagerState::PoweredOn));
}

#[test]
fn three_subscribers_read_ten_events_in_order() {
    // Capacity 16, ten events, three independent subscribers of different
    // pace: each observes every event exactly once, oldest first.
    let mut t: BroadcastTopic<PeripheralId> = broadcast(16);
    let a = t.new_receiver();
    let b = t.new_receiver();
    let c = t.new_receiver();
    for i in 0..10u128 {
        t.try_broadcast(PeripheralId(i + 1));
    }
    // Subscriber a reads everything at once.
    for i in 0..10u128 {
        match t.recv(a) {
            TopicRecv::Item(p) => assert_eq!(p, PeripheralId(i + 1)),
            _ => panic!("subscriber a expected event {}", i + 1),
        }
    }
    assert!(matches!(t.recv(a), TopicRecv::Pending));
    // Subscribers b and c read interleaved, each still sees the full
    // sequence in order.
    for i in 0..10u128 {
        match t.recv(b) {
            TopicRecv::Item(p) => assert_eq!(p, PeripheralId(i + 1)),
            _ => panic!("subscriber b expected event {}", i + 1),
        }
        match t.recv(c) {
            TopicRecv::Item(p) => assert_eq!(p, PeripheralId(i + 1)),
            _ => panic!("subscriber c expected event {}", i + 1),
        }
    }
    assert!(matches!(t.recv(b), TopicRecv::Pending));
    assert!(matches!(t.recv(c), TopicRecv::Pending));
}

#[test]
fn idle_subscriber_lags_then_resumes_from_oldest_retained() {
    // Twenty events into a capacity-16 topic with an idle subscriber: the
    // first read reports the lag, the next returns the fifth event (the
    // first four were dropped, oldest first).
    let mut t: BroadcastTopic<PeripheralId> = broadcast(16);
    let rid = t.new_receiver();
    for i in 0..20u128 {
        t.try_broadcast(PeripheralId(i + 1));
    }
    assert!(matches!(t.recv(rid), TopicRecv::Lagged));
    match t.recv(rid) {
        TopicRecv::Item(p) => assert_eq!(p, PeripheralId(5)),
        _ => panic!("expected the oldest retained event"),
    }
    // From there on the remaining events arrive in order.
    for i in 5..20u128 {
        match t.recv(rid) {
            TopicRecv::Item(p) => assert_eq!(p, PeripheralId(i + 1)),
            _ => panic!("expected event {}", i + 1),
        }
    }
    assert!(matches!(t.recv(rid), TopicRecv::Pending));
}

#[test]
fn subscriber_within_capacity_misses_nothing() {
    let mut t: BroadcastTopic<PeripheralId> = broadcast(16);
    let rid = t.new_receiver();
    for i in 0..16u128 {
        t.try_broadcast(PeripheralId(i + 1));
    }
    for i in 0..16u128 {
        match t.recv(rid) {
            TopicRecv::Item(p) => assert_eq!(p, PeripheralId(i + 1)),
            _ => panic!("expected event {}", i + 1),
        }
    }
}

#[test]
fn publish_with_no_subscribers_is_dropped_silently() {
    let mut t: BroadcastTopic<PeripheralId> = broadcast(16);
    t.try_broadcast(PeripheralId(1));
    assert_eq!(t.receiver_count(), 0);
    // A receiver subscribing afterwards starts at "now" and does not see
    // the earlier event.
    let rid = t.new_receiver();
    assert!(matches!(t.recv(rid), TopicRecv::Pending));
}

#[test]
fn closed_receiver_leaves_the_count() {
    let mut t: BroadcastTopic<PeripheralId> = broadcast(16);
    let a = t.new_receiver();
    let _b = t.new_receiver();
    assert_eq!(t.receiver_count(), 2);
    t.close_receiver(a);
    assert_eq!(t.receiver_count(), 1);
}
