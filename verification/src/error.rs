//! What can go wrong, by component.

use crate::utils::{hex, hex_text};
use vstd::prelude::*;
use vstd::string::StringExecFns;

verus! {

/// A driver description that cannot be built: the variant names what is
/// missing.
#[derive(Clone, Copy, Debug, PartialEq, Eq, Structural)]
pub enum ValidationError {
    /// No device id was set.
    MissingDeviceId,
    /// Neither a path to the driver file nor the bytes of one were set.
    MissingDriverBinary,
}

/// The part of the device channel that the platform refused.
#[derive(Clone, Copy, Debug, PartialEq, Eq, Structural)]
pub enum DeviceOperation {
    /// Opening the device node.
    Open,
    /// Sending the control code that the variant holds.
    Control(u32),
}

/// A failure of the channel to the driver.
#[derive(Clone, Copy, Debug, PartialEq, Eq, Structural)]
pub enum DriverError {
    /// The channel already holds a handle.
    AlreadyOpen,
    /// The channel holds no handle.
    NotOpen,
    /// The platform refused an operation on the device, with its error code.
    Device { operation: DeviceOperation, code: u32 },
    /// The driver answered a control code with other than eight bytes:
    /// `received` is how many there were, `code` what the platform reported.
    Protocol { ioctl_code: u32, code: u32, received: usize },
}

impl ValidationError {
    /// What to tell the user.
    pub open spec fn message_text(self) -> Seq<char> {
        match self {
            ValidationError::MissingDeviceId => "Device ID needs to be set!"@,
            ValidationError::MissingDriverBinary =>
                "Either a path to the driver file, or a binary array of the driver file, must be set"@,
        }
    }

    /// What to tell the user.
    pub fn message(&self) -> (text: String)
        ensures
            text@ == self.message_text(),
    {
        match self {
            ValidationError::MissingDeviceId => String::from_str("Device ID needs to be set!"),
            ValidationError::MissingDriverBinary => String::from_str(
                "Either a path to the driver file, or a binary array of the driver file, must be set",
            ),
        }
    }
}

impl DriverError {
    /// What to tell the user: what was attempted, and the platform's error
    /// code in hexadecimal where there is one.
    pub open spec fn message_text(self) -> Seq<char> {
        match self {
            DriverError::AlreadyOpen => "Driver already opened"@,
            DriverError::NotOpen => "Driver not opened"@,
            DriverError::Device { operation: DeviceOperation::Open, code } =>
                "Error occurred getting handle on kernel driver. Last error code: "@ + hex_text(
                    code as nat,
                ),
            DriverError::Device { operation: DeviceOperation::Control(ioctl_code), code } =>
                "DeviceIoControl - Unable to write command "@ + hex_text(ioctl_code as nat)
                    + ". Last error code: "@ + hex_text(code as nat),
            DriverError::Protocol { ioctl_code, code, received } =>
                "DeviceIoControl - Unexpected size of the answer to command "@ + hex_text(
                    ioctl_code as nat,
                ) + ". Last error code: "@ + hex_text(code as nat),
        }
    }

    /// What to tell the user.
    pub fn message(&self) -> (text: String)
        ensures
            text@ == self.message_text(),
    {
        match self {
            DriverError::AlreadyOpen => String::from_str("Driver already opened"),
            DriverError::NotOpen => String::from_str("Driver not opened"),
            DriverError::Device { operation: DeviceOperation::Open, code } => String::from_str(
                "Error occurred getting handle on kernel driver. Last error code: ",
            ).concat(hex(*code).as_str()),
            DriverError::Device { operation: DeviceOperation::Control(ioctl_code), code } => String::from_str(
                "DeviceIoControl - Unable to write command ",
            ).concat(hex(*ioctl_code).as_str()).concat(". Last error code: ").concat(hex(*code).as_str()),
            DriverError::Protocol { ioctl_code, code, received: _ } => String::from_str(
                "DeviceIoControl - Unexpected size of the answer to command ",
            ).concat(hex(*ioctl_code).as_str()).concat(". Last error code: ").concat(hex(*code).as_str()),
        }
    }

    /// Whether this is a failure that the platform reported on the device.
    pub open spec fn is_device_error(self) -> bool {
        self is Device
    }

    /// The platform's error code, where the failure carries one.
    pub open spec fn platform_code_of(self) -> Option<u32> {
        match self {
            DriverError::Device { operation, code } => Some(code),
            DriverError::Protocol { ioctl_code, code, received } => Some(code),
            _ => None,
        }
    }

    /// The control code that was attempted, where the failure belongs to one.
    pub open spec fn ioctl_code_of(self) -> Option<u32> {
        match self {
            DriverError::Device { operation: DeviceOperation::Control(ioctl_code), code } => Some(
                ioctl_code,
            ),
            DriverError::Protocol { ioctl_code, code, received } => Some(ioctl_code),
            _ => None,
        }
    }

    /// The platform's error code, where the failure carries one.
    pub fn platform_code(&self) -> (code: Option<u32>)
        ensures
            code == self.platform_code_of(),
    {
        match self {
            DriverError::Device { operation: _, code } => Some(*code),
            DriverError::Protocol { ioctl_code: _, code, received: _ } => Some(*code),
            _ => None,
        }
    }

    /// The control code that was attempted, where the failure belongs to one.
    pub fn ioctl_code(&self) -> (code: Option<u32>)
        ensures
            code == self.ioctl_code_of(),
    {
        match self {
            DriverError::Device { operation: DeviceOperation::Control(ioctl_code), code: _ } => Some(
                *ioctl_code,
            ),
            DriverError::Protocol { ioctl_code, code: _, received: _ } => Some(*ioctl_code),
            _ => None,
        }
    }
}

} // verus!
