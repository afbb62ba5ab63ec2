use ocl::error::{api_error, errcode_string, errcode_try, Error};
use ocl::status::{CommandExecutionStatus, EventStatus, Status};

#[test]
fn errcode_string_names_known_codes() {
    assert_eq!(errcode_string(0), "CL_SUCCESS");
    assert_eq!(errcode_string(-5), "CL_OUT_OF_RESOURCES");
    assert_eq!(errcode_string(-36), "CL_INVALID_COMMAND_QUEUE");
    assert_eq!(errcode_string(-68), "CL_INVALID_DEVICE_PARTITION_COUNT");
}

#[test]
fn errcode_string_brackets_unknown_codes() {
    assert_eq!(errcode_string(7), "[Unknown Error Code: 7]");
    assert_eq!(errcode_string(-20), "[Unknown Error Code: -20]");
    assert_eq!(errcode_string(-1001), "[Unknown Error Code: -1001]");
    assert_eq!(errcode_string(i32::MIN), "[Unknown Error Code: -2147483648]");
    assert_eq!(errcode_string(i32::MAX), "[Unknown Error Code: 2147483647]");
}

#[test]
fn errcode_try_is_ok_for_zero_only() {
    assert_eq!(errcode_try("clFlush", 0), Ok(()));
    assert!(errcode_try("clFlush", 1).is_err());
    assert!(errcode_try("clFlush", -1).is_err());
}

#[test]
fn errcode_try_builds_the_full_text() {
    let err = errcode_try("clEnqueueReadBuffer()", -36).unwrap_err();
    assert_eq!(
        err,
        Error::DeviceApi {
            code: -36,
            description: String::from(
                " { OPENCL ERROR: \"clEnqueueReadBuffer() failed with code [-36]: CL_INVALID_COMMAND_QUEUE\" } "
            ),
        }
    );
    assert_eq!(err.api_code(), Some(-36));
    assert!(!err.is_fatal());
}

#[test]
fn api_error_of_unknown_code() {
    let err = api_error("clFinish()", 12);
    assert_eq!(
        err.description(),
        " { OPENCL ERROR: \"clFinish() failed with code [12]: [Unknown Error Code: 12]\" } "
    );
}

#[test]
fn error_descriptions() {
    assert_eq!(Error::ResultMismatch { index: 1048575 }.description(), "Result value mismatch @ [1048575]");
    assert_eq!(Error::ResultMismatch { index: 0 }.description(), "Result value mismatch @ [0]");
    assert_eq!(Error::BuildFailure(String::from("log text")).description(), "log text");
    assert_eq!(Error::message("No platforms found!").description(), "No platforms found!");
    assert!(Error::CallbackMisuse.is_fatal());
    assert_eq!(Error::InvalidHandle.api_code(), None);
}

#[test]
fn status_round_trip() {
    for code in -80..10 {
        match Status::from_i32(code) {
            Some(s) => assert_eq!(s.code(), code),
            None => assert!(code > 0 || (-29..=-20).contains(&code) || code < -68),
        }
    }
    assert_eq!(Status::from_i32(-11), Some(Status::CL_BUILD_PROGRAM_FAILURE));
    assert_eq!(Status::CL_MAP_FAILURE.name(), "CL_MAP_FAILURE");
    assert!(Status::CL_SUCCESS.is_success());
    assert!(!Status::CL_INVALID_VALUE.is_success());
}

#[test]
fn execution_status_codes() {
    assert_eq!(CommandExecutionStatus::from_i32(0), Some(CommandExecutionStatus::Complete));
    assert_eq!(CommandExecutionStatus::from_i32(1), Some(CommandExecutionStatus::Running));
    assert_eq!(CommandExecutionStatus::from_i32(2), Some(CommandExecutionStatus::Submitted));
    assert_eq!(CommandExecutionStatus::from_i32(3), Some(CommandExecutionStatus::Queued));
    assert_eq!(CommandExecutionStatus::from_i32(4), None);
    assert_eq!(CommandExecutionStatus::from_i32(-1), None);
    assert_eq!(CommandExecutionStatus::Queued.code(), 3);
}

#[test]
fn event_status_never_reverses() {
    assert_eq!(EventStatus::from_raw(0), EventStatus::Complete);
    assert_eq!(EventStatus::from_raw(2), EventStatus::Pending);
    assert_eq!(EventStatus::from_raw(-14), EventStatus::Error(-14));
    assert_eq!(EventStatus::Pending.merge(EventStatus::Complete), EventStatus::Complete);
    assert_eq!(EventStatus::Complete.merge(EventStatus::Pending), EventStatus::Complete);
    assert_eq!(EventStatus::Complete.merge(EventStatus::Error(-5)), EventStatus::Complete);
    assert_eq!(EventStatus::Error(-5).merge(EventStatus::Complete), EventStatus::Error(-5));
    assert!(EventStatus::Error(-5).terminal());
    assert!(!EventStatus::Pending.terminal());
}
