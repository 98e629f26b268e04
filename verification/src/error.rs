//! Typed outcomes for the status codes of the native layer.

use vstd::prelude::*;
use vstd::std_specs::convert::FromSpecImpl;

verus! {

/// The call did what it was asked to do.
pub const UVC_SUCCESS: i32 = 0;

/// Input or output failed on the bus.
pub const UVC_ERROR_IO: i32 = -1;

/// An argument was rejected.
pub const UVC_ERROR_INVALID_PARAM: i32 = -2;

/// The caller lacks the rights to reach the device.
pub const UVC_ERROR_ACCESS: i32 = -3;

/// The device is gone.
pub const UVC_ERROR_NO_DEVICE: i32 = -4;

/// Nothing matched what was looked for.
pub const UVC_ERROR_NOT_FOUND: i32 = -5;

/// The device or one of its interfaces is already claimed.
pub const UVC_ERROR_BUSY: i32 = -6;

/// The device did not answer in time.
pub const UVC_ERROR_TIMEOUT: i32 = -7;

/// The operation is not supported.
pub const UVC_ERROR_NOT_SUPPORTED: i32 = -12;

/// The device offers no mode that matches the request.
pub const UVC_ERROR_INVALID_MODE: i32 = -51;

/// A failure the native layer itself could not classify.
pub const UVC_ERROR_OTHER: i32 = -99;

/// Every outcome a native call can have, as seen by callers of this crate.
///
/// `Success` exists so that a status can always be named; it never travels
/// inside an `Err`.
#[derive(Debug, Clone, Copy, PartialEq, Eq, Structural)]
pub enum UvcError {
    Success,
    AccessDenied,
    DeviceNotFound,
    InvalidParameter,
    Busy,
    IOError,
    NotSupported,
    Timeout,
    Other,
}

/// What an operation on a device yields: its value, or the failure.
pub type UvcResult<T> = Result<T, UvcError>;

/// The outcome that a native status code stands for.
///
/// A removed device and a device that was never found share one outcome, as do
/// an unsupported operation and a request that no mode of the device matches.
/// A code without an outcome of its own is `Other`.
pub open spec fn translate(code: int) -> UvcError {
    if code == UVC_SUCCESS {
        UvcError::Success
    } else if code == UVC_ERROR_IO {
        UvcError::IOError
    } else if code == UVC_ERROR_INVALID_PARAM {
        UvcError::InvalidParameter
    } else if code == UVC_ERROR_ACCESS {
        UvcError::AccessDenied
    } else if code == UVC_ERROR_NO_DEVICE || code == UVC_ERROR_NOT_FOUND {
        UvcError::DeviceNotFound
    } else if code == UVC_ERROR_BUSY {
        UvcError::Busy
    } else if code == UVC_ERROR_TIMEOUT {
        UvcError::Timeout
    } else if code == UVC_ERROR_NOT_SUPPORTED || code == UVC_ERROR_INVALID_MODE {
        UvcError::NotSupported
    } else {
        UvcError::Other
    }
}

/// What a status check yields: nothing to report on success, the failure otherwise.
pub open spec fn checked(code: int) -> UvcResult<()> {
    if code == UVC_SUCCESS {
        Ok(())
    } else {
        Err(translate(code))
    }
}

impl UvcError {
    /// The status code by which the native layer reports this outcome.
    pub open spec fn native_code(self) -> int {
        match self {
            UvcError::Success => UVC_SUCCESS as int,
            UvcError::AccessDenied => UVC_ERROR_ACCESS as int,
            UvcError::DeviceNotFound => UVC_ERROR_NO_DEVICE as int,
            UvcError::InvalidParameter => UVC_ERROR_INVALID_PARAM as int,
            UvcError::Busy => UVC_ERROR_BUSY as int,
            UvcError::IOError => UVC_ERROR_IO as int,
            UvcError::NotSupported => UVC_ERROR_NOT_SUPPORTED as int,
            UvcError::Timeout => UVC_ERROR_TIMEOUT as int,
            UvcError::Other => UVC_ERROR_OTHER as int,
        }
    }

    /// The status code by which the native layer reports this outcome.
    pub fn code(self) -> (c: i32)
        ensures
            c == self.native_code(),
    {
        match self {
            UvcError::Success => UVC_SUCCESS,
            UvcError::AccessDenied => UVC_ERROR_ACCESS,
            UvcError::DeviceNotFound => UVC_ERROR_NO_DEVICE,
            UvcError::InvalidParameter => UVC_ERROR_INVALID_PARAM,
            UvcError::Busy => UVC_ERROR_BUSY,
            UvcError::IOError => UVC_ERROR_IO,
            UvcError::NotSupported => UVC_ERROR_NOT_SUPPORTED,
            UvcError::Timeout => UVC_ERROR_TIMEOUT,
            UvcError::Other => UVC_ERROR_OTHER,
        }
    }

    /// Checks the status a native call returned: `Ok` for the success code,
    /// the translated failure for every other code.
    pub fn check(code: i32) -> (r: UvcResult<()>)
        ensures
            r == checked(code as int),
            r is Ok <==> code == UVC_SUCCESS,
            r matches Err(e) ==> e != UvcError::Success,
    {
        if code == UVC_SUCCESS {
            Ok(())
        } else {
            Err(UvcError::from(code))
        }
    }
}

impl From<i32> for UvcError {
    /// Translates a native status code.
    fn from(code: i32) -> (e: UvcError) {
        if code == UVC_SUCCESS {
            UvcError::Success
        } else if code == UVC_ERROR_IO {
            UvcError::IOError
        } else if code == UVC_ERROR_INVALID_PARAM {
            UvcError::InvalidParameter
        } else if code == UVC_ERROR_ACCESS {
            UvcError::AccessDenied
        } else if code == UVC_ERROR_NO_DEVICE || code == UVC_ERROR_NOT_FOUND {
            UvcError::DeviceNotFound
        } else if code == UVC_ERROR_BUSY {
            UvcError::Busy
        } else if code == UVC_ERROR_TIMEOUT {
            UvcError::Timeout
        } else if code == UVC_ERROR_NOT_SUPPORTED || code == UVC_ERROR_INVALID_MODE {
            UvcError::NotSupported
        } else {
            UvcError::Other
        }
    }
}

impl FromSpecImpl<i32> for UvcError {
    open spec fn obeys_from_spec() -> bool {
        true
    }

    open spec fn from_spec(code: i32) -> UvcError {
        translate(code as int)
    }
}

/// The success code, and no other code, translates to `Success`: every other
/// code is a failure.
pub proof fn success_code_alone_is_success(code: int)
    ensures
        translate(code) == UvcError::Success <==> code == UVC_SUCCESS,
        checked(code) is Ok <==> code == UVC_SUCCESS,
        checked(code) matches Err(e) ==> e != UvcError::Success,
{
}

/// Every outcome has a status code of its own, and translating that code gives
/// the outcome back; so two outcomes never share their code.
pub proof fn code_of_outcome_translates_back(e: UvcError, f: UvcError)
    ensures
        translate(e.native_code()) == e,
        e.native_code() == f.native_code() ==> e == f,
        i32::MIN <= e.native_code() <= i32::MAX,
{
}

} // verus!
