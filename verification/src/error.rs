//! The error taxonomy: one variant for each status code the device driver
//! reports, plus the locally synthesized `DeviceBusy` condition.

use vstd::prelude::*;

verus! {

/// Status code meaning the call succeeded.
pub const CODE_SUCCESS: i32 = 0;
/// Unexpected fault in the driver or the device.
pub const CODE_INTERNAL_FAULT: i32 = -1;
/// The API has not been started yet.
pub const CODE_API_NOT_STARTED: i32 = -2;
/// The designated instance (camera or feature) cannot be found.
pub const CODE_NOT_FOUND: i32 = -3;
/// The given handle is not valid.
pub const CODE_BAD_HANDLE: i32 = -4;
/// The device was not opened for usage.
pub const CODE_DEVICE_NOT_OPEN: i32 = -5;
/// The operation is invalid with the current access mode.
pub const CODE_INVALID_ACCESS: i32 = -6;
/// One of the parameters is not valid.
pub const CODE_BAD_PARAMETER: i32 = -7;
/// The given struct size is not valid for this API version.
pub const CODE_STRUCT_SIZE: i32 = -8;
/// More data available.
pub const CODE_MORE_DATA: i32 = -9;
/// The feature type for this access function is not valid.
pub const CODE_WRONG_TYPE: i32 = -10;
/// The value is not valid: out of bounds or not an increment of the minimum.
pub const CODE_INVALID_VALUE: i32 = -11;
/// Timeout during wait.
pub const CODE_TIMEOUT: i32 = -12;
/// Other, unspecified error.
pub const CODE_OTHER: i32 = -13;
/// Resources not available (e.g. memory).
pub const CODE_RESOURCES: i32 = -14;
/// The call is invalid in the current context (e.g. callback).
pub const CODE_INVALID_CALL: i32 = -15;
/// No transport layers were found.
pub const CODE_NO_TL: i32 = -16;
/// The API feature is not implemented.
pub const CODE_NOT_IMPLEMENTED: i32 = -17;
/// The API feature is not supported.
pub const CODE_NOT_SUPPORTED: i32 = -18;
/// The current operation was not completed (e.g. a multiple-register read).
pub const CODE_INCOMPLETE: i32 = -19;
/// A low-level I/O error occurred in the transport layer.
pub const CODE_IO: i32 = -20;

/// Every fault the library can report: the device-reported status codes,
/// mapped one to one, plus `DeviceBusy`, which the session synthesizes when a
/// second streaming session is requested while one is already active.
#[derive(Clone, Copy, Debug, PartialEq, Eq, Hash, Structural)]
pub enum Error {
    InternalFault,
    ApiNotStarted,
    NotFound,
    BadHandle,
    DeviceNotOpen,
    InvalidAccess,
    BadParameter,
    StructSize,
    MoreData,
    WrongType,
    InvalidValue,
    Timeout,
    Other,
    Resources,
    InvalidCall,
    NoTL,
    NotImplemented,
    NotSupported,
    Incomplete,
    IO,
    /// A streaming session is already active on this device handle.
    DeviceBusy,
}

/// The error that a given driver status code stands for, or `None` when the
/// code is not one the driver documents.
pub open spec fn spec_error_of_code(code: int) -> Option<Error> {
    if code == CODE_INTERNAL_FAULT {
        Some(Error::InternalFault)
    } else if code == CODE_API_NOT_STARTED {
        Some(Error::ApiNotStarted)
    } else if code == CODE_NOT_FOUND {
        Some(Error::NotFound)
    } else if code == CODE_BAD_HANDLE {
        Some(Error::BadHandle)
    } else if code == CODE_DEVICE_NOT_OPEN {
        Some(Error::DeviceNotOpen)
    } else if code == CODE_INVALID_ACCESS {
        Some(Error::InvalidAccess)
    } else if code == CODE_BAD_PARAMETER {
        Some(Error::BadParameter)
    } else if code == CODE_STRUCT_SIZE {
        Some(Error::StructSize)
    } else if code == CODE_MORE_DATA {
        Some(Error::MoreData)
    } else if code == CODE_WRONG_TYPE {
        Some(Error::WrongType)
    } else if code == CODE_INVALID_VALUE {
        Some(Error::InvalidValue)
    } else if code == CODE_TIMEOUT {
        Some(Error::Timeout)
    } else if code == CODE_OTHER {
        Some(Error::Other)
    } else if code == CODE_RESOURCES {
        Some(Error::Resources)
    } else if code == CODE_INVALID_CALL {
        Some(Error::InvalidCall)
    } else if code == CODE_NO_TL {
        Some(Error::NoTL)
    } else if code == CODE_NOT_IMPLEMENTED {
        Some(Error::NotImplemented)
    } else if code == CODE_NOT_SUPPORTED {
        Some(Error::NotSupported)
    } else if code == CODE_INCOMPLETE {
        Some(Error::Incomplete)
    } else if code == CODE_IO {
        Some(Error::IO)
    } else {
        None
    }
}

/// Whether `code` is a status code the driver documents (success included).
pub open spec fn spec_known_code(code: int) -> bool {
    code == CODE_SUCCESS || spec_error_of_code(code).is_some()
}

impl Error {
    /// The error variant for a driver status code, or `None` when the code is
    /// unknown; success is no error, so `0` also yields `None`.
    pub fn from_code(code: i32) -> (r: Option<Error>)
        ensures
            r == spec_error_of_code(code as int),
    {
        match code {
            CODE_INTERNAL_FAULT => Some(Error::InternalFault),
            CODE_API_NOT_STARTED => Some(Error::ApiNotStarted),
            CODE_NOT_FOUND => Some(Error::NotFound),
            CODE_BAD_HANDLE => Some(Error::BadHandle),
            CODE_DEVICE_NOT_OPEN => Some(Error::DeviceNotOpen),
            CODE_INVALID_ACCESS => Some(Error::InvalidAccess),
            CODE_BAD_PARAMETER => Some(Error::BadParameter),
            CODE_STRUCT_SIZE => Some(Error::StructSize),
            CODE_MORE_DATA => Some(Error::MoreData),
            CODE_WRONG_TYPE => Some(Error::WrongType),
            CODE_INVALID_VALUE => Some(Error::InvalidValue),
            CODE_TIMEOUT => Some(Error::Timeout),
            CODE_OTHER => Some(Error::Other),
            CODE_RESOURCES => Some(Error::Resources),
            CODE_INVALID_CALL => Some(Error::InvalidCall),
            CODE_NO_TL => Some(Error::NoTL),
            CODE_NOT_IMPLEMENTED => Some(Error::NotImplemented),
            CODE_NOT_SUPPORTED => Some(Error::NotSupported),
            CODE_INCOMPLETE => Some(Error::Incomplete),
            CODE_IO => Some(Error::IO),
            _ => None,
        }
    }

    /// A human-readable description of the error.
    pub fn message(&self) -> (r: &'static str)
        ensures
            r@ == self.spec_message(),
    {
        match self {
            Error::InternalFault => "internal fault",
            Error::ApiNotStarted => "API not started (open context needed)",
            Error::NotFound => "device or feature not found",
            Error::BadHandle => "invalid handle",
            Error::DeviceNotOpen => "device not open",
            Error::InvalidAccess => "invalid access (due to access mode or current API state)",
            Error::BadParameter => "invalid parameter value",
            Error::StructSize => "invalid struct size for this API version",
            Error::MoreData => "not all data was read",
            Error::WrongType => "incorrect feature type",
            Error::InvalidValue => "invalid feature value (out of range or bad increment)",
            Error::Timeout => "timed out",
            Error::Other => "other unknown error",
            Error::Resources => "resources (e.g. memory) not available",
            Error::InvalidCall => "call is invalid in the current context",
            Error::NoTL => "transport layer(s) not found",
            Error::NotImplemented => "not implemented",
            Error::NotSupported => "not supported",
            Error::Incomplete => "operation was not completed",
            Error::IO => "transport layer I/O error",
            Error::DeviceBusy => "device busy",
        }
    }

    /// What `message` returns, variant by variant.
    pub open spec fn spec_message(&self) -> Seq<char> {
        match self {
            Error::InternalFault => "internal fault"@,
            Error::ApiNotStarted => "API not started (open context needed)"@,
            Error::NotFound => "device or feature not found"@,
            Error::BadHandle => "invalid handle"@,
            Error::DeviceNotOpen => "device not open"@,
            Error::InvalidAccess => "invalid access (due to access mode or current API state)"@,
            Error::BadParameter => "invalid parameter value"@,
            Error::StructSize => "invalid struct size for this API version"@,
            Error::MoreData => "not all data was read"@,
            Error::WrongType => "incorrect feature type"@,
            Error::InvalidValue => "invalid feature value (out of range or bad increment)"@,
            Error::Timeout => "timed out"@,
            Error::Other => "other unknown error"@,
            Error::Resources => "resources (e.g. memory) not available"@,
            Error::InvalidCall => "call is invalid in the current context"@,
            Error::NoTL => "transport layer(s) not found"@,
            Error::NotImplemented => "not implemented"@,
            Error::NotSupported => "not supported"@,
            Error::Incomplete => "operation was not completed"@,
            Error::IO => "transport layer I/O error"@,
            Error::DeviceBusy => "device busy"@,
        }
    }
}

/// Turns a raw driver status code into a result: success becomes `Ok`, every
/// documented fault code becomes its error. Unknown codes are a violation of
/// the driver's documented contract, so callers must rule them out.
pub fn error_code_to_result(code: i32) -> (r: Result<(), Error>)
    requires
        spec_known_code(code as int),
    ensures
        code == CODE_SUCCESS <==> r is Ok,
        code != CODE_SUCCESS ==> r == Result::<(), Error>::Err(spec_error_of_code(code as int)->Some_0),
{
    if code == CODE_SUCCESS {
        Ok(())
    } else {
        match Error::from_code(code) {
            Some(e) => Err(e),
            None => Err(Error::Other),  // unreachable under the precondition
        }
    }
}

} // verus!
