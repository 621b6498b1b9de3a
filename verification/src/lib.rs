//! Lifecycle management and control-code protocol for a ring-0 device driver.
//!
//! A process that wants to read model-specific registers needs a driver in
//! the kernel. This library describes such a driver ([`DriverBuilder`]),
//! says how to install it as a service and how to remove it
//! ([`service`]), keeps the channel to its device node ([`WinKernelDriver`]),
//! packs the control codes that travel on it ([`ioctl`], [`table`]) and reads
//! what comes back ([`wire`], [`msr`], [`cpu`]).
//!
//! The library decides and the caller acts. Wherever the operating system
//! has to be called, one function says what to ask of it and another takes
//! the answer, so that every decision is made here and none of them depends
//! on a system being there.

pub mod cpu;
mod cpuid;
pub mod driver;
pub mod error;
pub mod intel;
pub mod ioctl;
pub mod msr;
pub mod service;
pub mod table;
pub mod utils;
pub mod win_ring0;
pub mod wire;

pub use cpu::{get_cpu, CPUDevice, CpuError, CpuUpdateTypes, VendorCpu, CPU};
pub use driver::{DeviceHandle, DriverBuilder, IoReply, IoRequest, OpenReply, OpenRequest, StagedFile, WinKernelDriver};
pub use error::{DeviceOperation, DriverError, ValidationError};
pub use intel::IntelCPU;
pub use ioctl::{io_control_code, Access, Method};
pub use table::{DEVICE_TYPE, IOCTL};
pub use win_ring0::{Architecture, WinRing0};
