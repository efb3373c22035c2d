//! Error taxonomy of the transport engine, and its classification of the
//! failure classes reported by the serial driver and by the operating system.

use vstd::prelude::*;

verus! {

/// Every failure the transport engine reports to its callers.
#[derive(Debug)]
pub enum SerialError {
    /// The device path does not exist.
    PortNotFound { path: String },
    /// The device exists but cannot be claimed.
    PortBusy { path: String },
    /// The handle is not in the registry (never issued, closed or evicted).
    InvalidHandle { handle_id: u64 },
    /// No complete frame arrived before the deadline.
    Timeout,
    /// A complete frame arrived but its integrity byte is wrong.
    CrcMismatch,
    /// Any other transport failure, with a readable diagnostic.
    IoError { message: String },
    /// A configuration value was rejected before any device was opened.
    InvalidConfig { message: String },
    /// The payload length is outside what a frame can carry.
    PayloadTooLarge,
}

/// The operating-system failure classes that the engine tells apart.
#[derive(Debug, Clone, Copy, PartialEq, Eq, Structural)]
pub enum IoErrorKind {
    TimedOut,
    PermissionDenied,
    Other,
}

/// The driver failure classes that the engine tells apart.
#[derive(Debug, Clone, Copy, PartialEq, Eq, Structural)]
pub enum PortErrorKind {
    NoDevice,
    InvalidInput,
    Unknown,
    Io(IoErrorKind),
}

/// The error reported for an operating-system failure of class `kind`
/// described by `text`.
pub open spec fn io_error_class(kind: IoErrorKind, text: String) -> SerialError {
    match kind {
        IoErrorKind::TimedOut => SerialError::Timeout,
        _ => SerialError::IoError { message: text },
    }
}

/// The error reported for a driver failure of class `kind` described by
/// `text`.
pub open spec fn port_error_class(kind: PortErrorKind, text: String) -> SerialError {
    match kind {
        PortErrorKind::NoDevice => SerialError::PortNotFound { path: text },
        PortErrorKind::Io(IoErrorKind::TimedOut) => SerialError::Timeout,
        PortErrorKind::Io(IoErrorKind::PermissionDenied) => SerialError::PortBusy { path: text },
        PortErrorKind::InvalidInput => SerialError::InvalidConfig { message: text },
        _ => SerialError::IoError { message: text },
    }
}

impl SerialError {
    /// Classifies an operating-system failure: a time-out becomes `Timeout`,
    /// anything else an `IoError` carrying `text`.
    pub fn from_io_kind(kind: IoErrorKind, text: String) -> (r: SerialError)
        ensures
            r == io_error_class(kind, text),
    {
        match kind {
            IoErrorKind::TimedOut => SerialError::Timeout,
            _ => SerialError::IoError { message: text },
        }
    }

    /// Classifies a driver failure: a missing device is `PortNotFound`, a
    /// refused claim `PortBusy`, a rejected parameter `InvalidConfig`, a
    /// time-out `Timeout`, anything else `IoError`.
    pub fn from_port_kind(kind: PortErrorKind, text: String) -> (r: SerialError)
        ensures
            r == port_error_class(kind, text),
    {
        match kind {
            PortErrorKind::NoDevice => SerialError::PortNotFound { path: text },
            PortErrorKind::Io(IoErrorKind::TimedOut) => SerialError::Timeout,
            PortErrorKind::Io(IoErrorKind::PermissionDenied) => SerialError::PortBusy { path: text },
            PortErrorKind::InvalidInput => SerialError::InvalidConfig { message: text },
            _ => SerialError::IoError { message: text },
        }
    }
}

} // verus!
