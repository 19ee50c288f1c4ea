//! Error classification, manufacturer-data decoding, completion slots and
//! scope guards.

use corebluetooth_async::advertisement_data::ManufacturerData;
use corebluetooth_async::error::{
    AttError, CbError, Error, ErrorDomain, ErrorKind, OsError, OsErrorKind, CB_CONNECTION_FAILED,
};
use corebluetooth_async::pending::PendingSlots;
use corebluetooth_async::scan_queue::{DemandGatedQueue, EmitOutcome};
use corebluetooth_async::util::defer;

#[test]
fn os_errors_classify_by_domain() {
    let e = OsError { domain: ErrorDomain::Bluetooth, code: 6 };
    assert_eq!(e.kind(), OsErrorKind::Bluetooth(CbError(6)));
    let e = OsError { domain: ErrorDomain::Att, code: 5 };
    assert_eq!(e.kind(), OsErrorKind::ATT(AttError(5)));
    let e = OsError { domain: ErrorDomain::Foreign, code: 77 };
    assert_eq!(e.kind(), OsErrorKind::Other);
}

#[test]
fn kind_round_trips_through_the_platform_space() {
    for k in [
        ErrorKind::Bluetooth(CbError(CB_CONNECTION_FAILED)),
        ErrorKind::ATT(AttError(8)),
        ErrorKind::Other,
    ] {
        let os = k.to_os().expect("a platform kind maps to the platform space");
        assert_eq!(ErrorKind::of_os(os), k);
    }
    // The kinds this layer adds on its own have no platform counterpart.
    assert_eq!(ErrorKind::Canceled.to_os(), Err(ErrorKind::Canceled));
    assert_eq!(ErrorKind::Lagged.to_os(), Err(ErrorKind::Lagged));
}

#[test]
fn error_wraps_a_platform_report_whole() {
    let os = OsError { domain: ErrorDomain::Bluetooth, code: 10 };
    let e = Error::from_os_or_kind(Some(os), OsErrorKind::Other);
    assert_eq!(e.kind(), ErrorKind::Bluetooth(CbError(10)));
    assert_eq!(e.get_ref(), Some(&os));
    assert_eq!(e.into_inner(), Some(os));
}

#[test]
fn error_falls_back_to_the_given_kind() {
    let e = Error::from_os_or_kind(None, OsErrorKind::Bluetooth(CbError(CB_CONNECTION_FAILED)));
    assert_eq!(e.kind(), ErrorKind::Bluetooth(CbError(CB_CONNECTION_FAILED)));
    assert_eq!(e.get_ref(), None);
    assert_eq!(e.into_inner(), None);
    let e = Error::from(ErrorKind::Canceled);
    assert_eq!(e.kind(), ErrorKind::Canceled);
}

#[test]
fn manufacturer_data_splits_company_id_and_payload() {
    let m = ManufacturerData::from_bytes(&vec![0x4c, 0x00, 1, 2, 3]).unwrap();
    assert_eq!(m.company_id, 0x004c);
    assert_eq!(m.data, vec![1, 2, 3]);
    let m = ManufacturerData::from_bytes(&vec![0x34, 0x12]).unwrap();
    assert_eq!(m.company_id, 0x1234);
    assert_eq!(m.data, Vec::<u8>::new());
}

#[test]
fn manufacturer_data_shorter_than_the_id_is_rejected() {
    assert!(ManufacturerData::from_bytes(&Vec::new()).is_none());
    assert!(ManufacturerData::from_bytes(&vec![0x4c]).is_none());
}

#[test]
fn pending_slots_register_complete_and_supersede() {
    let mut s = PendingSlots::new();
    assert!(!s.is_pending(5));
    let r1 = s.register(5);
    assert_eq!(r1.superseded, None);
    assert!(s.is_pending(5));
    let r2 = s.register(5);
    assert_eq!(r2.superseded, Some(r1.ticket));
    let r3 = s.register(6);
    assert_eq!(r3.superseded, None);
    assert_eq!(s.complete(5), Some(r2.ticket));
    assert!(!s.is_pending(5));
    assert_eq!(s.complete(5), None);
    assert_eq!(s.complete(6), Some(r3.ticket));
}

#[test]
fn scope_guard_hands_over_its_payload() {
    let g = defer(41u64);
    assert_eq!(g.fire(), 41);
    let g = defer(string_payload());
    g.defuse();
}

fn string_payload() -> String {
    String::from("compensate")
}

#[test]
fn demand_gated_queue_moves_values_in_order() {
    let mut q: DemandGatedQueue<String> = DemandGatedQueue::new();
    assert_eq!(q.emit(String::from("early")), EmitOutcome::NoSlot);
    q.start();
    assert_eq!(q.emit(String::from("one")), EmitOutcome::Delivered);
    assert_eq!(q.emit(String::from("two")), EmitOutcome::Delivered);
    assert_eq!(q.try_next(), Some(String::from("one")));
    assert_eq!(q.try_next(), Some(String::from("two")));
    assert_eq!(q.try_next(), None);
    q.drop_receiver();
    assert_eq!(q.emit(String::from("late")), EmitOutcome::HaltProducer);
    assert_eq!(q.emit(String::from("later")), EmitOutcome::NoSlot);
}

#[test]
fn messages_name_the_known_codes() {
    assert_eq!(ErrorKind::Canceled.message(), "canceled");
    assert_eq!(ErrorKind::Lagged.message(), "lagged");
    assert_eq!(ErrorKind::Other.message(), "other error");
    assert_eq!(ErrorKind::Bluetooth(CbError(3)).message(), "not connected");
    assert_eq!(ErrorKind::Bluetooth(CbError(10)).message(), "connection failed");
    assert_eq!(
        ErrorKind::Bluetooth(CbError(17)).message(),
        "LE GATT exceeded background notification limit"
    );
    assert_eq!(
        ErrorKind::Bluetooth(CbError(18)).message(),
        "LE GATT near background notification limit"
    );
    assert_eq!(ErrorKind::Bluetooth(CbError(999)).message(), "unknown bluetooth error");
    assert_eq!(ErrorKind::ATT(AttError(2)).message(), "read not permitted");
    assert_eq!(ErrorKind::ATT(AttError(5)).message(), "insufficient authentication");
    assert_eq!(ErrorKind::ATT(AttError(999)).message(), "unknown bluetooth ATT error");
    let e = Error::from_os_or_kind(Some(OsError { domain: ErrorDomain::Att, code: 1 }), OsErrorKind::Other);
    assert_eq!(e.message(), "invalid handle");
}
