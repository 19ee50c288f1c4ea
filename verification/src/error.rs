//! Error types for the correlation layer.
//!
//! Failures come from three places: the platform reports an operation error
//! (classified by the error domain the platform attached to it), an awaited
//! one-shot completion is dropped or superseded before it is fulfilled
//! (`Canceled`), or a broadcast subscriber falls behind and misses events
//! (`Lagged`).  Every kind is a stable discriminant, never a bare string.

use vstd::prelude::*;

verus! {

/// A platform Bluetooth error code.
#[derive(Clone, Copy, Debug, PartialEq, Eq, Structural, Hash)]
pub struct CbError(pub i64);

pub const CB_UNKNOWN: i64 = 0;
pub const CB_INVALID_PARAMETERS: i64 = 1;
pub const CB_INVALID_HANDLE: i64 = 2;
pub const CB_NOT_CONNECTED: i64 = 3;
pub const CB_OUT_OF_SPACE: i64 = 4;
pub const CB_OPERATION_CANCELLED: i64 = 5;
pub const CB_CONNECTION_TIMEOUT: i64 = 6;
pub const CB_PERIPHERAL_DISCONNECTED: i64 = 7;
pub const CB_UUID_NOT_ALLOWED: i64 = 8;
pub const CB_ALREADY_ADVERTISING: i64 = 9;
pub const CB_CONNECTION_FAILED: i64 = 10;
pub const CB_CONNECTION_LIMIT_REACHED: i64 = 11;
pub const CB_UNKNOWN_DEVICE: i64 = 12;
pub const CB_OPERATION_NOT_SUPPORTED: i64 = 13;
pub const CB_PEER_REMOVED_PAIRING_INFORMATION: i64 = 14;
pub const CB_ENCRYPTION_TIMED_OUT: i64 = 15;
pub const CB_TOO_MANY_LE_PAIRED_DEVICES: i64 = 16;
pub const CB_LE_GATT_EXCEEDED_BACKGROUND_NOTIFICATION_LIMIT: i64 = 17;
pub const CB_LE_GATT_NEAR_BACKGROUND_NOTIFICATION_LIMIT: i64 = 18;

/// A Bluetooth GATT attribute-protocol error code.
#[derive(Clone, Copy, Debug, PartialEq, Eq, Structural, Hash)]
pub struct AttError(pub i64);

pub const ATT_SUCCESS: i64 = 0;
pub const ATT_INVALID_HANDLE: i64 = 1;
pub const ATT_READ_NOT_PERMITTED: i64 = 2;
pub const ATT_WRITE_NOT_PERMITTED: i64 = 3;
pub const ATT_INVALID_PDU: i64 = 4;
pub const ATT_INSUFFICIENT_AUTHENTICATION: i64 = 5;
pub const ATT_REQUEST_NOT_SUPPORTED: i64 = 6;
pub const ATT_INVALID_OFFSET: i64 = 7;
pub const ATT_INSUFFICIENT_AUTHORIZATION: i64 = 8;
pub const ATT_PREPARE_QUEUE_FULL: i64 = 9;
pub const ATT_ATTRIBUTE_NOT_FOUND: i64 = 10;
pub const ATT_ATTRIBUTE_NOT_LONG: i64 = 11;
pub const ATT_INSUFFICIENT_ENCRYPTION_KEY_SIZE: i64 = 12;
pub const ATT_INVALID_ATTRIBUTE_VALUE_LENGTH: i64 = 13;
pub const ATT_UNLIKELY_ERROR: i64 = 14;
pub const ATT_INSUFFICIENT_ENCRYPTION: i64 = 15;
pub const ATT_UNSUPPORTED_GROUP_TYPE: i64 = 16;
pub const ATT_INSUFFICIENT_RESOURCES: i64 = 17;

/// The error domain the platform attached to a reported error, already
/// classified against the two Bluetooth domains.
#[derive(Clone, Copy, Debug, PartialEq, Eq, Structural, Hash)]
pub enum ErrorDomain {
    Bluetooth,
    Att,
    Foreign,
}

/// An error as the platform reported it: a classified domain and the raw
/// code within that domain.
#[derive(Clone, Copy, Debug, PartialEq, Eq, Structural, Hash)]
pub struct OsError {
    pub domain: ErrorDomain,
    pub code: i64,
}

/// The kind of a platform-reported error.
#[derive(Clone, Copy, Debug, PartialEq, Eq, Structural, Hash)]
pub enum OsErrorKind {
    Bluetooth(CbError),
    ATT(AttError),
    Other,
}

impl OsError {
    pub open spec fn spec_kind(self) -> OsErrorKind {
        match self.domain {
            ErrorDomain::Bluetooth => OsErrorKind::Bluetooth(CbError(self.code)),
            ErrorDomain::Att => OsErrorKind::ATT(AttError(self.code)),
            ErrorDomain::Foreign => OsErrorKind::Other,
        }
    }

    /// Classifies the reported error by its domain.
    pub fn kind(&self) -> (k: OsErrorKind)
        ensures
            k == self.spec_kind(),
    {
        match self.domain {
            ErrorDomain::Bluetooth => OsErrorKind::Bluetooth(CbError(self.code)),
            ErrorDomain::Att => OsErrorKind::ATT(AttError(self.code)),
            ErrorDomain::Foreign => OsErrorKind::Other,
        }
    }
}

/// The kind of error a caller of this layer can observe.
#[derive(Clone, Copy, Debug, PartialEq, Eq, Structural, Hash)]
pub enum ErrorKind {
    /// A platform Bluetooth error.
    Bluetooth(CbError),
    /// A Bluetooth GATT server error.
    ATT(AttError),
    /// The operation was canceled: the awaited one-shot slot was dropped or
    /// superseded before fulfilment.
    Canceled,
    /// A broadcast subscriber fell behind and missed one or more events.
    Lagged,
    /// An unknown or other error.
    Other,
}

impl ErrorKind {
    pub open spec fn spec_of_os(k: OsErrorKind) -> ErrorKind {
        match k {
            OsErrorKind::Bluetooth(c) => ErrorKind::Bluetooth(c),
            OsErrorKind::ATT(c) => ErrorKind::ATT(c),
            OsErrorKind::Other => ErrorKind::Other,
        }
    }

    /// Widens a platform error kind into this layer's kind space.
    pub fn of_os(k: OsErrorKind) -> (r: ErrorKind)
        ensures
            r == Self::spec_of_os(k),
    {
        match k {
            OsErrorKind::Bluetooth(c) => ErrorKind::Bluetooth(c),
            OsErrorKind::ATT(c) => ErrorKind::ATT(c),
            OsErrorKind::Other => ErrorKind::Other,
        }
    }

    pub open spec fn spec_message(self) -> Seq<char> {
        match self {
            ErrorKind::Bluetooth(c) => spec_cb_message(c),
            ErrorKind::ATT(c) => spec_att_message(c),
            ErrorKind::Canceled => "canceled"@,
            ErrorKind::Lagged => "lagged"@,
            ErrorKind::Other => "other error"@,
        }
    }

    /// A short wording of this kind.
    pub fn message(&self) -> (r: String)
        ensures
            r@ == self.spec_message(),
    {
        match self {
            ErrorKind::Bluetooth(c) => cb_message(*c),
            ErrorKind::ATT(c) => att_message(*c),
            ErrorKind::Canceled => String::from_str("canceled"),
            ErrorKind::Lagged => String::from_str("lagged"),
            ErrorKind::Other => String::from_str("other error"),
        }
    }

    pub open spec fn spec_to_os(self) -> Result<OsErrorKind, ErrorKind> {
        match self {
            ErrorKind::Bluetooth(c) => Ok(OsErrorKind::Bluetooth(c)),
            ErrorKind::ATT(c) => Ok(OsErrorKind::ATT(c)),
            ErrorKind::Other => Ok(OsErrorKind::Other),
            ErrorKind::Canceled => Err(ErrorKind::Canceled),
            ErrorKind::Lagged => Err(ErrorKind::Lagged),
        }
    }

    /// Narrows this kind back to a platform error kind; the kinds this layer
    /// adds on its own (`Canceled`, `Lagged`) have no platform counterpart
    /// and come back unchanged as the error.
    pub fn to_os(self) -> (r: Result<OsErrorKind, ErrorKind>)
        ensures
            r == self.spec_to_os(),
    {
        match self {
            ErrorKind::Bluetooth(c) => Ok(OsErrorKind::Bluetooth(c)),
            ErrorKind::ATT(c) => Ok(OsErrorKind::ATT(c)),
            ErrorKind::Other => Ok(OsErrorKind::Other),
            ErrorKind::Canceled => Err(ErrorKind::Canceled),
            ErrorKind::Lagged => Err(ErrorKind::Lagged),
        }
    }
}

#[derive(Clone, Copy, Debug, PartialEq, Eq, Structural, Hash)]
pub enum ErrorData {
    Os(OsError),
    Simple(ErrorKind),
}

/// An error surfaced by an operation of this layer: either an error the
/// platform reported, kept whole, or one of this layer's own kinds.
#[derive(Clone, Copy, Debug, PartialEq, Eq, Structural, Hash)]
pub struct Error {
    pub data: ErrorData,
}

/// A convenience alias for results of this layer's operations.
pub type BleResult<T> = Result<T, Error>;

impl Error {
    pub open spec fn spec_of_kind(kind: ErrorKind) -> Error {
        Error { data: ErrorData::Simple(kind) }
    }

    pub open spec fn spec_of_os(os: OsError) -> Error {
        Error { data: ErrorData::Os(os) }
    }

    pub open spec fn spec_kind(self) -> ErrorKind {
        match self.data {
            ErrorData::Os(os) => ErrorKind::spec_of_os(os.spec_kind()),
            ErrorData::Simple(kind) => kind,
        }
    }

    /// Builds an error from a platform report when one is present, else from
    /// the fallback kind the caller supplies.
    pub fn from_os_or_kind(os: Option<OsError>, kind: OsErrorKind) -> (r: Error)
        ensures
            r == (match os {
                Some(e) => Error::spec_of_os(e),
                None => Error::spec_of_kind(ErrorKind::spec_of_os(kind)),
            }),
    {
        match os {
            Some(e) => Error { data: ErrorData::Os(e) },
            None => Error { data: ErrorData::Simple(ErrorKind::of_os(kind)) },
        }
    }

    /// If this wraps a platform-reported error, returns a reference to it.
    pub fn get_ref(&self) -> (r: Option<&OsError>)
        ensures
            r == (match self.data {
                ErrorData::Os(os) => Some(&self.data->Os_0),
                ErrorData::Simple(_) => None::<&OsError>,
            }),
    {
        match &self.data {
            ErrorData::Os(os) => Some(os),
            ErrorData::Simple(_) => None,
        }
    }

    /// If this wraps a platform-reported error, returns it.
    pub fn into_inner(self) -> (r: Option<OsError>)
        ensures
            r == (match self.data {
                ErrorData::Os(os) => Some(os),
                ErrorData::Simple(_) => None::<OsError>,
            }),
    {
        match self.data {
            ErrorData::Os(os) => Some(os),
            ErrorData::Simple(_) => None,
        }
    }

    /// A short wording of this error, rendered from its kind.
    pub fn message(&self) -> (r: String)
        ensures
            r@ == self.spec_kind().spec_message(),
    {
        self.kind().message()
    }

    /// Returns the kind of error.
    pub fn kind(&self) -> (k: ErrorKind)
        ensures
            k == self.spec_kind(),
    {
        match &self.data {
            ErrorData::Os(os) => ErrorKind::of_os(os.kind()),
            ErrorData::Simple(kind) => *kind,
        }
    }
}

impl From<ErrorKind> for Error {
    /// Wraps one of this layer's own kinds.
    fn from(kind: ErrorKind) -> (r: Error) {
        Error { data: ErrorData::Simple(kind) }
    }
}

impl vstd::std_specs::convert::FromSpecImpl<ErrorKind> for Error {
    open spec fn obeys_from_spec() -> bool {
        true
    }

    open spec fn from_spec(kind: ErrorKind) -> Error {
        Error::spec_of_kind(kind)
    }
}

impl From<OsError> for Error {
    /// Wraps a platform-reported error, kept whole.
    fn from(os: OsError) -> (r: Error) {
        Error { data: ErrorData::Os(os) }
    }
}

impl vstd::std_specs::convert::FromSpecImpl<OsError> for Error {
    open spec fn obeys_from_spec() -> bool {
        true
    }

    open spec fn from_spec(os: OsError) -> Error {
        Error::spec_of_os(os)
    }
}

/// The wording for a platform Bluetooth code, matching the platform's
/// naming of the named codes; codes outside the named set render as the
/// generic wording.
pub open spec fn spec_cb_message(c: CbError) -> Seq<char> {
    if c.0 == CB_UNKNOWN {
        "unknown"@
    } else if c.0 == CB_INVALID_PARAMETERS {
        "invalid parameters"@
    } else if c.0 == CB_INVALID_HANDLE {
        "invalid handle"@
    } else if c.0 == CB_NOT_CONNECTED {
        "not connected"@
    } else if c.0 == CB_OUT_OF_SPACE {
        "out of space"@
    } else if c.0 == CB_OPERATION_CANCELLED {
        "operation cancelled"@
    } else if c.0 == CB_CONNECTION_TIMEOUT {
        "connection timeout"@
    } else if c.0 == CB_PERIPHERAL_DISCONNECTED {
        "peripheral disconnected"@
    } else if c.0 == CB_UUID_NOT_ALLOWED {
        "UUID not allowed"@
    } else if c.0 == CB_ALREADY_ADVERTISING {
        "already advertising"@
    } else if c.0 == CB_CONNECTION_FAILED {
        "connection failed"@
    } else if c.0 == CB_CONNECTION_LIMIT_REACHED {
        "connection limit reached"@
    } else if c.0 == CB_UNKNOWN_DEVICE {
        "unknown device"@
    } else if c.0 == CB_OPERATION_NOT_SUPPORTED {
        "operation not supported"@
    } else if c.0 == CB_PEER_REMOVED_PAIRING_INFORMATION {
        "peer removed pairing information"@
    } else if c.0 == CB_ENCRYPTION_TIMED_OUT {
        "encryption timed out"@
    } else if c.0 == CB_TOO_MANY_LE_PAIRED_DEVICES {
        "too many LE paired devices"@
    } else if c.0 == CB_LE_GATT_EXCEEDED_BACKGROUND_NOTIFICATION_LIMIT {
        "LE GATT exceeded background notification limit"@
    } else if c.0 == CB_LE_GATT_NEAR_BACKGROUND_NOTIFICATION_LIMIT {
        "LE GATT near background notification limit"@
    } else {
        "unknown bluetooth error"@
    }
}

/// The wording for an attribute-protocol code.
pub open spec fn spec_att_message(c: AttError) -> Seq<char> {
    if c.0 == ATT_SUCCESS {
        "success"@
    } else if c.0 == ATT_INVALID_HANDLE {
        "invalid handle"@
    } else if c.0 == ATT_READ_NOT_PERMITTED {
        "read not permitted"@
    } else if c.0 == ATT_WRITE_NOT_PERMITTED {
        "write not permitted"@
    } else if c.0 == ATT_INVALID_PDU {
        "invalid PDU"@
    } else if c.0 == ATT_INSUFFICIENT_AUTHENTICATION {
        "insufficient authentication"@
    } else if c.0 == ATT_REQUEST_NOT_SUPPORTED {
        "request not supported"@
    } else if c.0 == ATT_INVALID_OFFSET {
        "invalid offset"@
    } else if c.0 == ATT_INSUFFICIENT_AUTHORIZATION {
        "insufficient authorization"@
    } else if c.0 == ATT_PREPARE_QUEUE_FULL {
        "prepare queue full"@
    } else if c.0 == ATT_ATTRIBUTE_NOT_FOUND {
        "attribute not found"@
    } else if c.0 == ATT_ATTRIBUTE_NOT_LONG {
        "attribute not long"@
    } else if c.0 == ATT_INSUFFICIENT_ENCRYPTION_KEY_SIZE {
        "insufficient encryption key size"@
    } else if c.0 == ATT_INVALID_ATTRIBUTE_VALUE_LENGTH {
        "invalid attribute value length"@
    } else if c.0 == ATT_UNLIKELY_ERROR {
        "unlikely error"@
    } else if c.0 == ATT_INSUFFICIENT_ENCRYPTION {
        "insufficient encryption"@
    } else if c.0 == ATT_UNSUPPORTED_GROUP_TYPE {
        "unsupported group type"@
    } else if c.0 == ATT_INSUFFICIENT_RESOURCES {
        "insufficient resources"@
    } else {
        "unknown bluetooth ATT error"@
    }
}

fn cb_message(c: CbError) -> (r: String)
    ensures
        r@ == spec_cb_message(c),
{
    if c.0 == CB_UNKNOWN {
        String::from_str("unknown")
    } else if c.0 == CB_INVALID_PARAMETERS {
        String::from_str("invalid parameters")
    } else if c.0 == CB_INVALID_HANDLE {
        String::from_str("invalid handle")
    } else if c.0 == CB_NOT_CONNECTED {
        String::from_str("not connected")
    } else if c.0 == CB_OUT_OF_SPACE {
        String::from_str("out of space")
    } else if c.0 == CB_OPERATION_CANCELLED {
        String::from_str("operation cancelled")
    } else if c.0 == CB_CONNECTION_TIMEOUT {
        String::from_str("connection timeout")
    } else if c.0 == CB_PERIPHERAL_DISCONNECTED {
        String::from_str("peripheral disconnected")
    } else if c.0 == CB_UUID_NOT_ALLOWED {
        String::from_str("UUID not allowed")
    } else if c.0 == CB_ALREADY_ADVERTISING {
        String::from_str("already advertising")
    } else if c.0 == CB_CONNECTION_FAILED {
        String::from_str("connection failed")
    } else if c.0 == CB_CONNECTION_LIMIT_REACHED {
        String::from_str("connection limit reached")
    } else if c.0 == CB_UNKNOWN_DEVICE {
        String::from_str("unknown device")
    } else if c.0 == CB_OPERATION_NOT_SUPPORTED {
        String::from_str("operation not supported")
    } else if c.0 == CB_PEER_REMOVED_PAIRING_INFORMATION {
        String::from_str("peer removed pairing information")
    } else if c.0 == CB_ENCRYPTION_TIMED_OUT {
        String::from_str("encryption timed out")
    } else if c.0 == CB_TOO_MANY_LE_PAIRED_DEVICES {
        String::from_str("too many LE paired devices")
    } else if c.0 == CB_LE_GATT_EXCEEDED_BACKGROUND_NOTIFICATION_LIMIT {
        String::from_str("LE GATT exceeded background notification limit")
    } else if c.0 == CB_LE_GATT_NEAR_BACKGROUND_NOTIFICATION_LIMIT {
        String::from_str("LE GATT near background notification limit")
    } else {
        String::from_str("unknown bluetooth error")
    }
}

fn att_message(c: AttError) -> (r: String)
    ensures
        r@ == spec_att_message(c),
{
    if c.0 == ATT_SUCCESS {
        String::from_str("success")
    } else if c.0 == ATT_INVALID_HANDLE {
        String::from_str("invalid handle")
    } else if c.0 == ATT_READ_NOT_PERMITTED {
        String::from_str("read not permitted")
    } else if c.0 == ATT_WRITE_NOT_PERMITTED {
        String::from_str("write not permitted")
    } else if c.0 == ATT_INVALID_PDU {
        String::from_str("invalid PDU")
    } else if c.0 == ATT_INSUFFICIENT_AUTHENTICATION {
        String::from_str("insufficient authentication")
    } else if c.0 == ATT_REQUEST_NOT_SUPPORTED {
        String::from_str("request not supported")
    } else if c.0 == ATT_INVALID_OFFSET {
        String::from_str("invalid offset")
    } else if c.0 == ATT_INSUFFICIENT_AUTHORIZATION {
        String::from_str("insufficient authorization")
    } else if c.0 == ATT_PREPARE_QUEUE_FULL {
        String::from_str("prepare queue full")
    } else if c.0 == ATT_ATTRIBUTE_NOT_FOUND {
        String::from_str("attribute not found")
    } else if c.0 == ATT_ATTRIBUTE_NOT_LONG {
        String::from_str("attribute not long")
    } else if c.0 == ATT_INSUFFICIENT_ENCRYPTION_KEY_SIZE {
        String::from_str("insufficient encryption key size")
    } else if c.0 == ATT_INVALID_ATTRIBUTE_VALUE_LENGTH {
        String::from_str("invalid attribute value length")
    } else if c.0 == ATT_UNLIKELY_ERROR {
        String::from_str("unlikely error")
    } else if c.0 == ATT_INSUFFICIENT_ENCRYPTION {
        String::from_str("insufficient encryption")
    } else if c.0 == ATT_UNSUPPORTED_GROUP_TYPE {
        String::from_str("unsupported group type")
    } else if c.0 == ATT_INSUFFICIENT_RESOURCES {
        String::from_str("insufficient resources")
    } else {
        String::from_str("unknown bluetooth ATT error")
    }
}

} // verus!

