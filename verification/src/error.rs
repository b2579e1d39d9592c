//! Error taxonomy of the sensor session.

use vstd::prelude::*;

use crate::text::str_eq;

verus! {

/// A six-byte Bluetooth device address.
#[derive(Clone, Copy, Debug)]
pub struct Address(pub [u8; 6]);

/// Classification of a transport-level failure, mirroring the error names
/// that the BlueZ daemon reports. Only `AlreadyConnected` is interpreted by
/// the session (a connect that reports it is treated as success); the other
/// kinds are carried through for the caller's diagnostics.
#[derive(Clone, Copy, Debug, PartialEq, Eq, Structural)]
pub enum ErrorKind {
    InvalidArguments,
    InProgress,
    AlreadyExists,
    NotSupported,
    NotConnected,
    AlreadyConnected,
    NotAvailable,
    DoesNotExist,
    NotAuthorized,
    NotPermitted,
    NoSuchAdapter,
    AgentNotAvailable,
    NotReady,
    Failed,
    InvalidValueLength,
    InvalidOffset,
    Rejected,
    Canceled,
    AuthenticationCanceled,
    AuthenticationFailed,
    AuthenticationRejected,
    AuthenticationTimeout,
    ConnectionAttemptFailed,
    OutOfRange,
    HealthError,
    NotAcquired,
    Unknown,
}

/// The classification a daemon-reported error name stands for: each
/// `org.bluez.Error.*` name maps to its kind, and every other name — or a
/// missing one — to `Unknown`.
pub open spec fn kind_of_name(name: Seq<char>) -> ErrorKind {
    if name == "org.bluez.Error.InvalidArguments"@ {
        ErrorKind::InvalidArguments
    } else if name == "org.bluez.Error.InProgress"@ {
        ErrorKind::InProgress
    } else if name == "org.bluez.Error.AlreadyExists"@ {
        ErrorKind::AlreadyExists
    } else if name == "org.bluez.Error.NotSupported"@ {
        ErrorKind::NotSupported
    } else if name == "org.bluez.Error.NotConnected"@ {
        ErrorKind::NotConnected
    } else if name == "org.bluez.Error.AlreadyConnected"@ {
        ErrorKind::AlreadyConnected
    } else if name == "org.bluez.Error.NotAvailable"@ {
        ErrorKind::NotAvailable
    } else if name == "org.bluez.Error.DoesNotExist"@ {
        ErrorKind::DoesNotExist
    } else if name == "org.bluez.Error.NotAuthorized"@ {
        ErrorKind::NotAuthorized
    } else if name == "org.bluez.Error.NotPermitted"@ {
        ErrorKind::NotPermitted
    } else if name == "org.bluez.Error.NoSuchAdapter"@ {
        ErrorKind::NoSuchAdapter
    } else if name == "org.bluez.Error.AgentNotAvailable"@ {
        ErrorKind::AgentNotAvailable
    } else if name == "org.bluez.Error.NotReady"@ {
        ErrorKind::NotReady
    } else if name == "org.bluez.Error.Failed"@ {
        ErrorKind::Failed
    } else if name == "org.bluez.Error.InvalidValueLength"@ {
        ErrorKind::InvalidValueLength
    } else if name == "org.bluez.Error.InvalidOffset"@ {
        ErrorKind::InvalidOffset
    } else if name == "org.bluez.Error.Rejected"@ {
        ErrorKind::Rejected
    } else if name == "org.bluez.Error.Canceled"@ {
        ErrorKind::Canceled
    } else if name == "org.bluez.Error.AuthenticationCanceled"@ {
        ErrorKind::AuthenticationCanceled
    } else if name == "org.bluez.Error.AuthenticationFailed"@ {
        ErrorKind::AuthenticationFailed
    } else if name == "org.bluez.Error.AuthenticationRejected"@ {
        ErrorKind::AuthenticationRejected
    } else if name == "org.bluez.Error.AuthenticationTimeout"@ {
        ErrorKind::AuthenticationTimeout
    } else if name == "org.bluez.Error.ConnectionAttemptFailed"@ {
        ErrorKind::ConnectionAttemptFailed
    } else if name == "org.bluez.Error.OutOfRange"@ {
        ErrorKind::OutOfRange
    } else if name == "org.bluez.Error.HealthError"@ {
        ErrorKind::HealthError
    } else if name == "org.bluez.Error.NotAcquired"@ {
        ErrorKind::NotAcquired
    } else {
        ErrorKind::Unknown
    }
}

impl ErrorKind {
    /// Classifies a daemon-reported error name; an absent name is `Unknown`.
    pub fn from_name(name: Option<&str>) -> (k: ErrorKind)
        ensures
            k == match name {
                Some(n) => kind_of_name(n@),
                None => ErrorKind::Unknown,
            },
    {
        let name = match name {
            Some(name) => name,
            None => {
                return ErrorKind::Unknown;
            },
        };
        if str_eq(name, "org.bluez.Error.InvalidArguments") {
            ErrorKind::InvalidArguments
        } else if str_eq(name, "org.bluez.Error.InProgress") {
            ErrorKind::InProgress
        } else if str_eq(name, "org.bluez.Error.AlreadyExists") {
            ErrorKind::AlreadyExists
        } else if str_eq(name, "org.bluez.Error.NotSupported") {
            ErrorKind::NotSupported
        } else if str_eq(name, "org.bluez.Error.NotConnected") {
            ErrorKind::NotConnected
        } else if str_eq(name, "org.bluez.Error.AlreadyConnected") {
            ErrorKind::AlreadyConnected
        } else if str_eq(name, "org.bluez.Error.NotAvailable") {
            ErrorKind::NotAvailable
        } else if str_eq(name, "org.bluez.Error.DoesNotExist") {
            ErrorKind::DoesNotExist
        } else if str_eq(name, "org.bluez.Error.NotAuthorized") {
            ErrorKind::NotAuthorized
        } else if str_eq(name, "org.bluez.Error.NotPermitted") {
            ErrorKind::NotPermitted
        } else if str_eq(name, "org.bluez.Error.NoSuchAdapter") {
            ErrorKind::NoSuchAdapter
        } else if str_eq(name, "org.bluez.Error.AgentNotAvailable") {
            ErrorKind::AgentNotAvailable
        } else if str_eq(name, "org.bluez.Error.NotReady") {
            ErrorKind::NotReady
        } else if str_eq(name, "org.bluez.Error.Failed") {
            ErrorKind::Failed
        } else if str_eq(name, "org.bluez.Error.InvalidValueLength") {
            ErrorKind::InvalidValueLength
        } else if str_eq(name, "org.bluez.Error.InvalidOffset") {
            ErrorKind::InvalidOffset
        } else if str_eq(name, "org.bluez.Error.Rejected") {
            ErrorKind::Rejected
        } else if str_eq(name, "org.bluez.Error.Canceled") {
            ErrorKind::Canceled
        } else if str_eq(name, "org.bluez.Error.AuthenticationCanceled") {
            ErrorKind::AuthenticationCanceled
        } else if str_eq(name, "org.bluez.Error.AuthenticationFailed") {
            ErrorKind::AuthenticationFailed
        } else if str_eq(name, "org.bluez.Error.AuthenticationRejected") {
            ErrorKind::AuthenticationRejected
        } else if str_eq(name, "org.bluez.Error.AuthenticationTimeout") {
            ErrorKind::AuthenticationTimeout
        } else if str_eq(name, "org.bluez.Error.ConnectionAttemptFailed") {
            ErrorKind::ConnectionAttemptFailed
        } else if str_eq(name, "org.bluez.Error.OutOfRange") {
            ErrorKind::OutOfRange
        } else if str_eq(name, "org.bluez.Error.HealthError") {
            ErrorKind::HealthError
        } else if str_eq(name, "org.bluez.Error.NotAcquired") {
            ErrorKind::NotAcquired
        } else {
            ErrorKind::Unknown
        }
    }
}

/// What can go wrong in the session layer. Transport failures are kept apart
/// from protocol and data failures:
///
/// - `SensorNotFound`: the address resolves to no device, or a wait protocol
///   exhausted its event stream without a match.
/// - `SensorInvalid`: the device exists but is not in a usable pairing state.
/// - `GattAttributeNotFound`: a required service or characteristic UUID was
///   missing during discovery.
/// - `NotConnected`: a field operation was attempted while the attribute
///   table is absent.
/// - `PropertyNotFound`: a device property (name, service data) is absent.
/// - `InvalidData`: a decode saw a buffer shorter than the field's width;
///   the offending bytes are retained.
/// - `Transport`: the underlying transport failed, with its classification.
#[derive(Debug)]
pub enum Error {
    SensorNotFound(Address),
    SensorInvalid(String),
    GattAttributeNotFound(u128),
    NotConnected,
    PropertyNotFound,
    InvalidData(Vec<u8>),
    Transport(ErrorKind),
}

} // verus!
