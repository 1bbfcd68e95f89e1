//! The error taxonomy of the binding layer, and the conversion between
//! error kinds and the host's numeric status codes.
//!
//! The host reports failure as a negative integer whose negation is an
//! error number; zero or positive returns are success values.

use vstd::prelude::*;

verus! {

/// Error number for an invalid argument.
pub const EINVAL: i32 = 22;
/// Error number for a busy device or resource.
pub const EBUSY: i32 = 16;
/// Error number for a generic input/output failure.
pub const EIO: i32 = 5;
/// Error number for an out-of-memory condition.
pub const ENOMEM: i32 = 12;
/// Error number for exhausted space.
pub const ENOSPC: i32 = 28;
/// Error number for an unimplemented call.
pub const ENOSYS: i32 = 38;
/// Error number for an operation the device does not support.
pub const EOPNOTSUPP: i32 = 95;

/// What can go wrong in a call into this layer.
#[derive(Clone, Copy, Debug, PartialEq, Eq, Structural)]
pub enum Error {
    /// A null or out-of-range input at the boundary.
    InvalidArgument,
    /// A resource or region is already claimed or reserved.
    DeviceBusy,
    /// The host reported a generic I/O-class failure.
    IOFailure,
    /// The host rejected the operation as not implemented for this device.
    Unsupported,
    /// An allocation could not meet the minimum request.
    ResourceExhausted,
}

/// The error kind a negative host status stands for.
pub open spec fn kind_of_status(status: i32) -> Error {
    if status == -EINVAL {
        Error::InvalidArgument
    } else if status == -EBUSY {
        Error::DeviceBusy
    } else if status == -ENOSYS || status == -EOPNOTSUPP {
        Error::Unsupported
    } else if status == -ENOMEM || status == -ENOSPC {
        Error::ResourceExhausted
    } else {
        Error::IOFailure
    }
}

/// The canonical negative status code of an error kind.
pub open spec fn status_of_kind(e: Error) -> int {
    match e {
        Error::InvalidArgument => -EINVAL,
        Error::DeviceBusy => -EBUSY,
        Error::IOFailure => -EIO,
        Error::Unsupported => -EOPNOTSUPP,
        Error::ResourceExhausted => -ENOSPC,
    }
}

impl Error {
    /// Converts a negative host status into the error kind it stands for.
    pub fn from_errno(status: i32) -> (r: Error)
        ensures
            r == kind_of_status(status),
    {
        if status == -EINVAL {
            Error::InvalidArgument
        } else if status == -EBUSY {
            Error::DeviceBusy
        } else if status == -ENOSYS || status == -EOPNOTSUPP {
            Error::Unsupported
        } else if status == -ENOMEM || status == -ENOSPC {
            Error::ResourceExhausted
        } else {
            Error::IOFailure
        }
    }

    /// The canonical negative status code reported back to the host for
    /// this error kind.  Converting that code back with [`Error::from_errno`]
    /// recovers the kind.
    pub fn to_errno(self) -> (r: i32)
        ensures
            r == status_of_kind(self),
            r < 0,
            kind_of_status(r) == self,
    {
        match self {
            Error::InvalidArgument => -EINVAL,
            Error::DeviceBusy => -EBUSY,
            Error::IOFailure => -EIO,
            Error::Unsupported => -EOPNOTSUPP,
            Error::ResourceExhausted => -ENOSPC,
        }
    }
}

/// What a whole host status means: zero is success, a negative value is
/// the error its negation names.
pub open spec fn result_of_status(status: i32) -> Result<(), Error> {
    if status == 0 {
        Ok(())
    } else {
        Err(kind_of_status(status))
    }
}

/// Converts a host status into a result: zero is success, anything else
/// is the error kind the status stands for.
pub fn to_result(status: i32) -> (r: Result<(), Error>)
    ensures
        r == result_of_status(status),
{
    if status == 0 {
        Ok(())
    } else {
        Err(Error::from_errno(status))
    }
}

} // verus!
