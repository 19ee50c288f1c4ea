//! Entity identities and small platform-state enums.
//!
//! Every pending completion and every broadcast event is keyed by the
//! identity of the remote object it concerns.  A peripheral is identified by
//! its stable 128-bit UUID; services, characteristics and descriptors are
//! identified by the handle identity of the underlying remote object (two
//! handles for the same remote object compare equal).  The correlation layer
//! only ever compares these identities, so each is carried as a plain
//! integer.

use vstd::prelude::*;

use crate::relay::Dup;

verus! {

/// The stable 128-bit UUID of a remote peripheral.
#[derive(Clone, Copy, Debug, PartialEq, Eq, Structural, Hash)]
pub struct PeripheralId(pub u128);

/// Handle identity of a GATT service object.
#[derive(Clone, Copy, Debug, PartialEq, Eq, Structural, Hash)]
pub struct ServiceId(pub u64);

/// Handle identity of a GATT characteristic object.
#[derive(Clone, Copy, Debug, PartialEq, Eq, Structural, Hash)]
pub struct CharacteristicId(pub u64);

/// Handle identity of a GATT descriptor object.
#[derive(Clone, Copy, Debug, PartialEq, Eq, Structural, Hash)]
pub struct DescriptorId(pub u64);

/// A Bluetooth-specific UUID: 16-bit and 32-bit short forms, or the full
/// 128-bit form.  Used in scan filters and discovery filters, where the
/// correlation layer passes it through untouched.
#[derive(Clone, Copy, Debug, PartialEq, Eq, Structural, Hash)]
pub enum BluetoothUuid {
    Uuid16(u16),
    Uuid32(u32),
    Uuid128(u128),
}

/// The power state of the central manager, as the platform reports it.
#[derive(Clone, Copy, Debug, PartialEq, Eq, Structural, Hash)]
pub enum ManagerState {
    Unknown,
    Resetting,
    Unsupported,
    Unauthorized,
    PoweredOff,
    PoweredOn,
}

/// The connection state of a peripheral, as the platform reports it.
#[derive(Clone, Copy, Debug, PartialEq, Eq, Structural, Hash)]
pub enum PeripheralState {
    Disconnected,
    Connecting,
    Connected,
    Disconnecting,
}

/// A connection event reported for a registered peripheral.
#[derive(Clone, Copy, Debug, PartialEq, Eq, Structural, Hash)]
pub enum ConnectionEventKind {
    PeerDisconnected,
    PeerConnected,
}

/// How a characteristic value is written.
#[derive(Clone, Copy, Debug, PartialEq, Eq, Structural, Hash)]
pub enum CharacteristicWriteType {
    WithResponse,
    WithoutResponse,
}


impl DeepView for PeripheralId {
    type V = PeripheralId;

    open spec fn deep_view(&self) -> PeripheralId {
        *self
    }
}

impl Dup for PeripheralId {
    fn dup(&self) -> (r: PeripheralId) {
        *self
    }
}

impl DeepView for ServiceId {
    type V = ServiceId;

    open spec fn deep_view(&self) -> ServiceId {
        *self
    }
}

impl Dup for ServiceId {
    fn dup(&self) -> (r: ServiceId) {
        *self
    }
}

impl DeepView for ManagerState {
    type V = ManagerState;

    open spec fn deep_view(&self) -> ManagerState {
        *self
    }
}

impl Dup for ManagerState {
    fn dup(&self) -> (r: ManagerState) {
        *self
    }
}

} // verus!
