//! The crate's error taxonomy and its mapping to and from the raw negative
//! result codes surfaced by the kernel.

use vstd::prelude::*;

verus! {

// Kernel error numbers, as published for the x86-64 Linux ABI.
pub const EPERM: i32 = 1;
pub const ENOENT: i32 = 2;
pub const EINTR: i32 = 4;
pub const EIO: i32 = 5;
pub const ENXIO: i32 = 6;
pub const ENOMEM: i32 = 12;
pub const EACCES: i32 = 13;
pub const EBUSY: i32 = 16;
pub const ENODEV: i32 = 19;
pub const EINVAL: i32 = 22;
pub const ENOTTY: i32 = 25;
pub const ENOSPC: i32 = 28;
pub const EOPNOTSUPP: i32 = 95;

/// The closed set of failure categories a DRM call can report, plus a
/// catch-all carrying any unmapped raw code.
#[derive(Clone, Copy, Debug, PartialEq, Eq, Structural)]
pub enum Error {
    /// A request argument had an invalid shape or value.
    Invalid,
    /// A referenced object id is unknown to the device.
    NonExist,
    /// System memory was exhausted, on either side of the call.
    SystemMem,
    /// Device-side graphics memory was exhausted.
    GraphicsMem,
    /// The caller lacks the needed privilege.
    Permission,
    /// The device or output has gone away.
    Disconnected,
    /// The operation, or the property type it assumes, is unsupported.
    NotSupported,
    /// The device reported a logical failure, such as an impossible count.
    RemoteFailure,
    /// An I/O-level device failure.
    Died,
    /// Any other raw error code, carried through unchanged.
    Other(i32),
}

/// The category that a raw kernel error code maps to.
pub open spec fn spec_error_from_raw(raw: i32) -> Error {
    if raw == EINVAL {
        Error::Invalid
    } else if raw == ENOENT {
        Error::NonExist
    } else if raw == ENOMEM || raw == ENOSPC {
        Error::SystemMem
    } else if raw == EPERM || raw == EACCES {
        Error::Permission
    } else if raw == ENODEV {
        Error::Disconnected
    } else if raw == EOPNOTSUPP {
        Error::NotSupported
    } else if raw == ENXIO {
        Error::RemoteFailure
    } else if raw == EIO {
        Error::Died
    } else {
        Error::Other(raw)
    }
}

/// The raw kernel error code that a category maps back to.
pub open spec fn spec_error_to_raw(e: Error) -> i32 {
    match e {
        Error::Invalid => EINVAL,
        Error::NonExist => ENOENT,
        Error::SystemMem => ENOMEM,
        Error::GraphicsMem => ENOSPC,
        Error::Permission => EPERM,
        Error::Disconnected => ENODEV,
        Error::NotSupported => EOPNOTSUPP,
        Error::RemoteFailure => ENXIO,
        Error::Died => EIO,
        Error::Other(v) => v,
    }
}

impl Error {
    /// Categorise a raw kernel error code.
    pub fn from_raw(raw: i32) -> (e: Error)
        ensures
            e == spec_error_from_raw(raw),
    {
        if raw == EINVAL {
            Error::Invalid
        } else if raw == ENOENT {
            Error::NonExist
        } else if raw == ENOMEM || raw == ENOSPC {
            Error::SystemMem
        } else if raw == EPERM || raw == EACCES {
            Error::Permission
        } else if raw == ENODEV {
            Error::Disconnected
        } else if raw == EOPNOTSUPP {
            Error::NotSupported
        } else if raw == ENXIO {
            Error::RemoteFailure
        } else if raw == EIO {
            Error::Died
        } else {
            Error::Other(raw)
        }
    }

    /// The raw kernel error code standing for this category.
    pub fn to_raw(self) -> (raw: i32)
        ensures
            raw == spec_error_to_raw(self),
    {
        match self {
            Error::Invalid => EINVAL,
            Error::NonExist => ENOENT,
            Error::SystemMem => ENOMEM,
            Error::GraphicsMem => ENOSPC,
            Error::Permission => EPERM,
            Error::Disconnected => ENODEV,
            Error::NotSupported => EOPNOTSUPP,
            Error::RemoteFailure => ENXIO,
            Error::Died => EIO,
            Error::Other(v) => v,
        }
    }
}

/// Failures of the open/handshake step that decides whether a file is a
/// DRM card device at all.
#[derive(Clone, Copy, Debug, PartialEq, Eq, Structural)]
pub enum InitError {
    /// The file does not answer the version request, so it is not a card.
    NotDrmCard,
    /// Any other raw error code, carried through unchanged.
    Other(i32),
}

impl InitError {
    /// Categorise a raw kernel error code from the handshake.
    pub fn from_raw(raw: i32) -> (e: InitError)
        ensures
            raw == ENOTTY ==> e == InitError::NotDrmCard,
            raw != ENOTTY ==> e == InitError::Other(raw),
    {
        if raw == ENOTTY {
            InitError::NotDrmCard
        } else {
            InitError::Other(raw)
        }
    }

    /// The raw kernel error code standing for this failure.
    pub fn to_raw(self) -> (raw: i32)
        ensures
            self == InitError::NotDrmCard ==> raw == ENOTTY,
            forall|v: i32| self == InitError::Other(v) ==> raw == v,
    {
        match self {
            InitError::NotDrmCard => ENOTTY,
            InitError::Other(e) => e,
        }
    }
}

} // verus!
