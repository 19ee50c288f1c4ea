//! Data included in a Bluetooth advertisement or scan response.
//!
//! The platform hands the advertisement over as a keyed dictionary; what
//! reaches this layer is the already-extracted plain data.  Only the
//! manufacturer-specific entry needs decoding of its raw bytes, which
//! happens here.

use vstd::prelude::*;

use crate::ids::BluetoothUuid;

verus! {

/// Data included in a Bluetooth advertisement or scan response.
#[derive(Debug, Clone, PartialEq, Eq)]
pub struct AdvertisementData {
    /// The (possibly shortened) local name of the device.
    pub local_name: Option<String>,
    /// Manufacturer-specific data.
    pub manufacturer_data: Option<ManufacturerData>,
    /// Service-associated data, one entry per advertised service UUID.
    pub service_data: Vec<(BluetoothUuid, Vec<u8>)>,
    /// Advertised GATT service UUIDs.
    pub service_uuids: Vec<BluetoothUuid>,
    /// Advertised service UUIDs that overflowed the main advertisement.
    pub overflow_service_uuids: Vec<BluetoothUuid>,
    /// Transmitted power level.
    pub tx_power_level: Option<i16>,
    /// Whether the advertising packet is connectable.
    pub is_connectable: bool,
    /// Solicited GATT service UUIDs.
    pub solicited_service_uuids: Vec<BluetoothUuid>,
}

/// Manufacturer-specific data included in Bluetooth advertisements: a
/// 16-bit company identifier followed by the manufacturer's own bytes.
#[derive(Debug, Clone, PartialEq, Eq)]
pub struct ManufacturerData {
    /// The assigned company identifier.
    pub company_id: u16,
    /// Manufacturer-specific data.
    pub data: Vec<u8>,
}

impl ManufacturerData {
    /// Decodes a raw manufacturer-data entry: the first two bytes are the
    /// company identifier, little endian; the rest is the manufacturer's
    /// data.  An entry shorter than the identifier is rejected.
    pub fn from_bytes(raw: &Vec<u8>) -> (r: Option<ManufacturerData>)
        ensures
            match r {
                Some(m) => {
                    &&& raw@.len() >= 2
                    &&& m.company_id == raw@[0] + 256 * (raw@[1] as u16)
                    &&& m.data@ == raw@.subrange(2, raw@.len() as int)
                },
                None => raw@.len() < 2,
            },
    {
        if raw.len() < 2 {
            return None;
        }
        let company_id: u16 = (raw[0] as u16) + 256 * (raw[1] as u16);
        let mut data: Vec<u8> = Vec::new();
        let n = raw.len();
        let mut i: usize = 2;
        while i < n
            invariant
                2 <= i <= n,
                n == raw@.len(),
                data@ == raw@.subrange(2, i as int),
            decreases n - i,
        {
            data.push(raw[i]);
            proof {
                assert(data@ =~= raw@.subrange(2, i + 1));
            }
            i = i + 1;
        }
        Some(ManufacturerData { company_id, data })
    }
}

} // verus!
