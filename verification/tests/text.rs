use win_kernel_driver::cpu::CpuError;
use win_kernel_driver::error::{DeviceOperation, DriverError, ValidationError};
use win_kernel_driver::service::{ServiceError, ServiceOp};
use win_kernel_driver::utils::{hex, to_wide};

#[test]
fn wide_text_ends_with_a_zero() {
    assert_eq!(to_wide(""), vec![0]);
    assert_eq!(to_wide("A"), vec![0x41, 0]);
    assert_eq!(to_wide("WinRing0"), vec![0x57, 0x69, 0x6E, 0x52, 0x69, 0x6E, 0x67, 0x30, 0]);
}

#[test]
fn wide_text_is_utf16() {
    assert_eq!(to_wide("é"), vec![0xE9, 0]);
    assert_eq!(to_wide("€"), vec![0x20AC, 0]);
    assert_eq!(to_wide("\u{FFFF}"), vec![0xFFFF, 0]);
    assert_eq!(to_wide("\u{10000}"), vec![0xD800, 0xDC00, 0]);
    assert_eq!(to_wide("𝄞"), vec![0xD834, 0xDD1E, 0]);
    assert_eq!(to_wide("\u{10FFFF}"), vec![0xDBFF, 0xDFFF, 0]);
    let text = "a𝄞b€\u{0}c";
    let mut expected: Vec<u16> = text.encode_utf16().collect();
    expected.push(0);
    assert_eq!(to_wide(text), expected);
}

#[test]
fn hex_is_lower_case_without_leading_zeros() {
    assert_eq!(hex(0), "0");
    assert_eq!(hex(9), "9");
    assert_eq!(hex(10), "a");
    assert_eq!(hex(15), "f");
    assert_eq!(hex(16), "10");
    assert_eq!(hex(0x1A2), "1a2");
    assert_eq!(hex(0x9C40_2084), "9c402084");
    assert_eq!(hex(u32::MAX), "ffffffff");
    for n in [1u32, 255, 256, 4096, 0xDEAD_BEEF, 0x0100_0000].iter() {
        assert_eq!(hex(*n), format!("{:x}", n));
    }
}

#[test]
fn validation_messages() {
    assert_eq!(ValidationError::MissingDeviceId.message(), "Device ID needs to be set!");
    assert_eq!(
        ValidationError::MissingDriverBinary.message(),
        "Either a path to the driver file, or a binary array of the driver file, must be set"
    );
}

#[test]
fn channel_messages_name_the_attempt_and_the_code() {
    assert_eq!(DriverError::AlreadyOpen.message(), "Driver already opened");
    assert_eq!(DriverError::NotOpen.message(), "Driver not opened");
    assert_eq!(
        DriverError::Device { operation: DeviceOperation::Open, code: 5 }.message(),
        "Error occurred getting handle on kernel driver. Last error code: 5"
    );
    assert_eq!(
        DriverError::Device { operation: DeviceOperation::Control(0x9C40_2084), code: 0x1F }.message(),
        "DeviceIoControl - Unable to write command 9c402084. Last error code: 1f"
    );
    assert_eq!(
        DriverError::Protocol { ioctl_code: 0x9C40_2000, code: 0, received: 4 }.message(),
        "DeviceIoControl - Unexpected size of the answer to command 9c402000. Last error code: 0"
    );
}

#[test]
fn service_messages_name_the_operation_and_the_code() {
    assert_eq!(
        ServiceError::Platform { op: ServiceOp::Connect, code: 5 }.message(),
        "Unable to connect to service manager: error code 5"
    );
    assert_eq!(ServiceError::Platform { op: ServiceOp::Create, code: 1073 }.message(), "Service error: error code 431");
    assert_eq!(
        ServiceError::Platform { op: ServiceOp::Start, code: 2 }.message(),
        "Failed to start service: error code 2"
    );
    assert_eq!(
        ServiceError::Platform { op: ServiceOp::Open, code: 1060 }.message(),
        "Error opening service: error code 424"
    );
    assert_eq!(
        ServiceError::Platform { op: ServiceOp::Query, code: 6 }.message(),
        "Error querying service status: error code 6"
    );
    assert_eq!(
        ServiceError::Platform { op: ServiceOp::Stop, code: 1062 }.message(),
        "Error stopping service: error code 426"
    );
    assert_eq!(
        ServiceError::Platform { op: ServiceOp::Delete, code: 1072 }.message(),
        "Error deleting service: error code 430"
    );
    assert_eq!(
        ServiceError::OutOfSequence { op: ServiceOp::Delete }.message(),
        "Error deleting service: out of sequence"
    );
}

#[test]
fn processor_messages() {
    assert_eq!(
        CpuError::UnsupportedVendor("AuthenticAMD".to_string()).message(),
        "CPU Arch AuthenticAMD not supported for now"
    );
    assert_eq!(CpuError::Unbound.message(), "No driver bound to the CPU");
    assert_eq!(CpuError::MissingReply.message(), "No answer to the register read");
    assert_eq!(CpuError::Unidentified.message(), "CPU does not identify itself");
    assert_eq!(CpuError::Driver(DriverError::NotOpen).message(), "Error reading msr: Driver not opened");
}
