use uvc::error::{
    UVC_ERROR_ACCESS, UVC_ERROR_BUSY, UVC_ERROR_INVALID_MODE, UVC_ERROR_INVALID_PARAM,
    UVC_ERROR_IO, UVC_ERROR_NOT_FOUND, UVC_ERROR_NOT_SUPPORTED, UVC_ERROR_NO_DEVICE,
    UVC_ERROR_OTHER, UVC_ERROR_TIMEOUT, UVC_SUCCESS,
};
use uvc::UvcError;

const ALL_OUTCOMES: [UvcError; 9] = [
    UvcError::Success,
    UvcError::AccessDenied,
    UvcError::DeviceNotFound,
    UvcError::InvalidParameter,
    UvcError::Busy,
    UvcError::IOError,
    UvcError::NotSupported,
    UvcError::Timeout,
    UvcError::Other,
];

#[test]
fn status_codes_have_their_native_values() {
    assert_eq!(UVC_SUCCESS, 0);
    assert_eq!(UVC_ERROR_IO, -1);
    assert_eq!(UVC_ERROR_INVALID_PARAM, -2);
    assert_eq!(UVC_ERROR_ACCESS, -3);
    assert_eq!(UVC_ERROR_NO_DEVICE, -4);
    assert_eq!(UVC_ERROR_NOT_FOUND, -5);
    assert_eq!(UVC_ERROR_BUSY, -6);
    assert_eq!(UVC_ERROR_TIMEOUT, -7);
    assert_eq!(UVC_ERROR_NOT_SUPPORTED, -12);
    assert_eq!(UVC_ERROR_INVALID_MODE, -51);
    assert_eq!(UVC_ERROR_OTHER, -99);
}

#[test]
fn success_code_is_no_error() {
    assert_eq!(UvcError::from(0), UvcError::Success);
    assert_eq!(UvcError::check(0), Ok(()));
}

#[test]
fn access_code_is_access_denied() {
    assert_eq!(UvcError::from(-3), UvcError::AccessDenied);
    assert_eq!(UvcError::check(-3), Err(UvcError::AccessDenied));
}

#[test]
fn missing_and_removed_devices_are_device_not_found() {
    assert_eq!(UvcError::from(-4), UvcError::DeviceNotFound);
    assert_eq!(UvcError::from(-5), UvcError::DeviceNotFound);
    assert_eq!(UvcError::check(-4), Err(UvcError::DeviceNotFound));
    assert_eq!(UvcError::check(-5), Err(UvcError::DeviceNotFound));
}

#[test]
fn invalid_param_code_is_invalid_parameter() {
    assert_eq!(UvcError::from(-2), UvcError::InvalidParameter);
    assert_eq!(UvcError::check(-2), Err(UvcError::InvalidParameter));
}

#[test]
fn busy_code_is_busy() {
    assert_eq!(UvcError::from(-6), UvcError::Busy);
    assert_eq!(UvcError::check(-6), Err(UvcError::Busy));
}

#[test]
fn io_code_is_io_error() {
    assert_eq!(UvcError::from(-1), UvcError::IOError);
    assert_eq!(UvcError::check(-1), Err(UvcError::IOError));
}

#[test]
fn unsupported_operation_and_unmatched_mode_are_not_supported() {
    assert_eq!(UvcError::from(-12), UvcError::NotSupported);
    assert_eq!(UvcError::from(-51), UvcError::NotSupported);
    assert_eq!(UvcError::check(-12), Err(UvcError::NotSupported));
    assert_eq!(UvcError::check(-51), Err(UvcError::NotSupported));
}

#[test]
fn timeout_code_is_timeout() {
    assert_eq!(UvcError::from(-7), UvcError::Timeout);
    assert_eq!(UvcError::check(-7), Err(UvcError::Timeout));
}

#[test]
fn codes_without_an_outcome_of_their_own_are_other() {
    for code in [-99, -8, -9, -10, -11, -13, -50, -52, 1, 7, i32::MIN, i32::MAX] {
        assert_eq!(UvcError::from(code), UvcError::Other, "code {}", code);
        assert_eq!(UvcError::check(code), Err(UvcError::Other), "code {}", code);
    }
}

#[test]
fn into_translates_like_from() {
    let e: UvcError = (-6).into();
    assert_eq!(e, UvcError::Busy);
}

#[test]
fn outcomes_report_their_native_codes() {
    assert_eq!(UvcError::Success.code(), 0);
    assert_eq!(UvcError::AccessDenied.code(), -3);
    assert_eq!(UvcError::DeviceNotFound.code(), -4);
    assert_eq!(UvcError::InvalidParameter.code(), -2);
    assert_eq!(UvcError::Busy.code(), -6);
    assert_eq!(UvcError::IOError.code(), -1);
    assert_eq!(UvcError::NotSupported.code(), -12);
    assert_eq!(UvcError::Timeout.code(), -7);
    assert_eq!(UvcError::Other.code(), -99);
}

#[test]
fn code_of_every_outcome_translates_back() {
    for e in ALL_OUTCOMES {
        assert_eq!(UvcError::from(e.code()), e);
    }
}

#[test]
fn no_two_outcomes_share_a_code() {
    for (i, a) in ALL_OUTCOMES.iter().enumerate() {
        for (j, b) in ALL_OUTCOMES.iter().enumerate() {
            assert_eq!(a.code() == b.code(), i == j);
        }
    }
}

#[test]
fn only_the_success_code_passes_the_check() {
    for code in -200..200 {
        let r = UvcError::check(code);
        assert_eq!(r.is_ok(), code == 0, "code {}", code);
        assert_eq!(UvcError::from(code) == UvcError::Success, code == 0, "code {}", code);
        if let Err(e) = r {
            assert_ne!(e, UvcError::Success);
            assert_eq!(e, UvcError::from(code));
        }
    }
}
