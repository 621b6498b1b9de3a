//! The WinRing0 driver: its description, and its operations by name.

use crate::driver::{driver_file_suffix, path_in, DeviceHandle, DriverBuilder, DriverView, IoReply, IoRequest, OpenReply, OpenRequest, StagedFile, WinKernelDriver};
use crate::error::{DriverError, ValidationError};
use crate::service::{ServiceEvent, ServiceJob, ServiceStep};
use crate::table::{DEVICE_TYPE, IOCTL};
use crate::wire::{request_bytes, RESPONSE_LEN};
use vstd::prelude::*;

verus! {

/// The architecture of the process that loads the driver.
#[derive(Clone, Copy, Debug, PartialEq, Eq, Structural)]
pub enum Architecture {
    /// 32-bit.
    X86,
    /// 64-bit.
    X64,
}

/// The device id of the driver: `WinRing0_1_2_0`.
pub open spec fn device_id() -> Seq<char> {
    seq!['W', 'i', 'n', 'R', 'i', 'n', 'g', '0', '_', '1', '_', '2', '_', '0']
}

/// The description of the driver's service: `Rust winRing0 driver`.
pub open spec fn description() -> Seq<char> {
    seq![
        'R', 'u', 's', 't', ' ', 'w', 'i', 'n', 'R', 'i', 'n', 'g', '0', ' ', 'd', 'r', 'i', 'v', 'e', 'r',
    ]
}

/// Of the two driver files that come with the library, the one for `arch`.
pub fn select_driver_bin(arch: Architecture, driver_x86: Vec<u8>, driver_x64: Vec<u8>) -> (driver_bin: Vec<u8>)
    ensures
        driver_bin == (match arch {
            Architecture::X86 => driver_x86,
            Architecture::X64 => driver_x64,
        }),
{
    match arch {
        Architecture::X86 => driver_x86,
        Architecture::X64 => driver_x64,
    }
}

/// WinRing0 driver
pub struct WinRing0 {
    driver: WinKernelDriver,
}

impl View for WinRing0 {
    type V = DriverView;

    closed spec fn view(&self) -> DriverView {
        self.driver@
    }
}

impl WinRing0 {
    /// The WinRing0 driver for `arch`, from the bytes of its two driver
    /// files. The bytes chosen are to be written to the temporary directory
    /// `temp_dir`, under the name that [`WinRing0::staging_file_name`]
    /// gives: see [`WinRing0::staged_file`]. Fails where the driver file
    /// chosen is empty.
    pub fn new(arch: Architecture, driver_x86: Vec<u8>, driver_x64: Vec<u8>, temp_dir: &str) -> (result: Result<
        Self,
        ValidationError,
    >)
        ensures
            ({
                let driver_bin = match arch {
                    Architecture::X86 => driver_x86,
                    Architecture::X64 => driver_x64,
                };
                match result {
                    Ok(ring0) => {
                        &&& driver_bin@.len() > 0
                        &&& ring0@ == (DriverView {
                            identity: device_id(),
                            description: description(),
                            device_type: DEVICE_TYPE,
                            path: path_in(temp_dir@, device_id() + driver_file_suffix()),
                            binary: driver_bin@,
                            handle: None,
                        })
                    },
                    Err(e) => driver_bin@.len() == 0 && e == ValidationError::MissingDriverBinary,
                }
            }),
    {
        proof {
            reveal_strlit("WinRing0_1_2_0");
            reveal_strlit("Rust winRing0 driver");
        }
        assert("WinRing0_1_2_0"@ =~= device_id());
        assert("Rust winRing0 driver"@ =~= description());
        let mut builder = DriverBuilder::new().set_device_description("Rust winRing0 driver").set_device_id(
            "WinRing0_1_2_0",
        ).set_device_type(DEVICE_TYPE).set_driver_bin(select_driver_bin(arch, driver_x86, driver_x64));
        match builder.build(temp_dir) {
            Ok(driver) => Ok(WinRing0 { driver }),
            Err(e) => Err(e),
        }
    }

    /// The name of the file that the driver is staged in: `WinRing0_1_2_0.sys`.
    pub fn staging_file_name() -> (name: String)
        ensures
            name@ == device_id() + driver_file_suffix(),
    {
        proof {
            reveal_strlit("WinRing0_1_2_0");
        }
        assert("WinRing0_1_2_0"@ =~= device_id());
        DriverBuilder::new().set_device_id("WinRing0_1_2_0").staging_file_name()
    }

    /// The driver that this is the WinRing0 of.
    pub fn driver(&self) -> (driver: &WinKernelDriver)
        ensures
            driver@ == self@,
    {
        &self.driver
    }

    /// The file that has to be written before the driver is installed.
    pub fn staged_file(&self) -> (file: Option<StagedFile>)
        ensures
            file is Some <==> self@.binary.len() > 0,
            file matches Some(f) ==> f.path@ == self@.path && f.contents@ == self@.binary,
    {
        self.driver.staged_file()
    }

    /// Install the winRing0 driver: the next step of it.
    pub fn install(&self, event: ServiceEvent) -> (step: ServiceStep)
        ensures
            step == ServiceJob::Install.next(event),
    {
        self.driver.install(event)
    }

    /// Uninstall the winRing0 driver: the next step of it.
    pub fn uninstall(&self, event: ServiceEvent) -> (step: ServiceStep)
        ensures
            step == ServiceJob::Uninstall.next(event),
    {
        self.driver.uninstall(event)
    }

    /// Whether the channel to the driver is open.
    pub fn opened(&self) -> (opened: bool)
        ensures
            opened == self@.handle is Some,
    {
        self.driver.opened()
    }

    /// What to ask of the platform in order to open the winRing0 driver for
    /// communication.
    pub fn open_request(&self) -> (result: Result<OpenRequest, DriverError>)
        ensures
            self@.handle is Some ==> result == Err::<OpenRequest, DriverError>(DriverError::AlreadyOpen),
            self@.handle is None ==> (result matches Ok(request) && {
                &&& request.path@ == self@.device_path()
                &&& request.desired_access == 0xC000_0000
                &&& request.share_mode == 0
                &&& request.creation_disposition == crate::driver::OPEN_EXISTING
                &&& request.flags_and_attributes == crate::driver::FILE_ATTRIBUTE_NORMAL
            }),
    {
        self.driver.open_request()
    }

    /// Open the winRing0 driver for communication, with the platform's
    /// answer to [`WinRing0::open_request`].
    pub fn open(&mut self, reply: OpenReply) -> (result: Result<(), DriverError>)
        ensures
            (final(self)@, result) == old(self)@.after_open(reply),
    {
        self.driver.open(reply)
    }

    /// Close the winRing0 driver handle. The caller releases the handle
    /// that comes back.
    pub fn close(&mut self) -> (result: Result<DeviceHandle, DriverError>)
        ensures
            (final(self)@, result) == old(self)@.after_close(),
    {
        self.driver.close()
    }

    /// What to ask of the platform in order to read the model-specific
    /// register `msr`.
    pub fn read_msr_request(&self, msr: u32) -> (result: Result<IoRequest, DriverError>)
        ensures
            match self@.handle {
                Some(handle) => result matches Ok(request) && {
                    &&& request.handle == handle
                    &&& request.ioctl_code == IOCTL::OLS_READ_MSR.control_code()
                    &&& request.input@ == request_bytes(msr)
                    &&& request.output_len == RESPONSE_LEN
                },
                None => result == Err::<IoRequest, DriverError>(DriverError::NotOpen),
            },
    {
        self.driver.io_request(IOCTL::OLS_READ_MSR.code(), msr)
    }

    /// Read an MSR register: its value, from the platform's answer to
    /// [`WinRing0::read_msr_request`].
    #[allow(non_snake_case)]
    pub fn readMsr(&self, reply: &IoReply) -> (result: Result<u64, DriverError>)
        ensures
            result == self@.io_result(IOCTL::OLS_READ_MSR.control_code(), *reply),
    {
        self.driver.io(IOCTL::OLS_READ_MSR.code(), reply)
    }

    /// What to ask of the platform in order to perform `ioctl` with one
    /// 32-bit parameter. See [`WinKernelDriver::io_request`].
    pub fn io_request(&self, ioctl: IOCTL, in_buffer: u32) -> (result: Result<IoRequest, DriverError>)
        ensures
            match self@.handle {
                Some(handle) => result matches Ok(request) && {
                    &&& request.handle == handle
                    &&& request.ioctl_code == ioctl.control_code()
                    &&& request.input@ == request_bytes(in_buffer)
                    &&& request.output_len == RESPONSE_LEN
                },
                None => result == Err::<IoRequest, DriverError>(DriverError::NotOpen),
            },
    {
        self.driver.io_request(ioctl.code(), in_buffer)
    }

    /// Raw IO function: the result of `ioctl`, from the platform's answer
    /// to [`WinRing0::io_request`]. See [`WinKernelDriver::io`].
    pub fn io(&self, ioctl: IOCTL, reply: &IoReply) -> (result: Result<u64, DriverError>)
        ensures
            result == self@.io_result(ioctl.control_code(), *reply),
    {
        self.driver.io(ioctl.code(), reply)
    }
}

} // verus!
