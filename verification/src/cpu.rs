//! Processors: what they have in common, and how the one at hand is found.

use crate::cpuid::{processor_family_id, processor_vendor};
use crate::driver::{DriverView, IoReply, IoRequest};
use crate::error::DriverError;
use crate::intel::{IntelCPU, IntelView};
use crate::win_ring0::WinRing0;
use vstd::prelude::*;
use vstd::string::StringExecFns;

verus! {

/// What to bring up to date.
#[derive(Clone, Copy, Debug, PartialEq, Eq, Structural)]
pub enum CpuUpdateTypes {
    Frequency,
    Temperature,
    Load,
    All,
}

/// What can go wrong with a processor.
#[derive(Clone, Debug, PartialEq, Eq)]
pub enum CpuError {
    /// An update needs the hardware, and no driver has been bound.
    Unbound,
    /// An update needs the hardware, and no answer of the platform was
    /// handed in.
    MissingReply,
    /// The processor does not say what it is.
    Unidentified,
    /// There is no implementation for processors of this vendor.
    UnsupportedVendor(String),
    /// The channel to the driver failed.
    Driver(DriverError),
}

impl CpuError {
    /// What to tell the user. An unsupported vendor is named.
    pub open spec fn message_text(self) -> Seq<char> {
        match self {
            CpuError::Unbound => "No driver bound to the CPU"@,
            CpuError::MissingReply => "No answer to the register read"@,
            CpuError::Unidentified => "CPU does not identify itself"@,
            CpuError::UnsupportedVendor(vendor) => "CPU Arch "@ + vendor@ + " not supported for now"@,
            CpuError::Driver(e) => "Error reading msr: "@ + e.message_text(),
        }
    }

    /// What to tell the user.
    pub fn message(&self) -> (text: String)
        ensures
            text@ == self.message_text(),
    {
        match self {
            CpuError::Unbound => String::from_str("No driver bound to the CPU"),
            CpuError::MissingReply => String::from_str("No answer to the register read"),
            CpuError::Unidentified => String::from_str("CPU does not identify itself"),
            CpuError::UnsupportedVendor(vendor) => String::from_str("CPU Arch ").concat(vendor.as_str()).concat(
                " not supported for now",
            ),
            CpuError::Driver(e) => String::from_str("Error reading msr: ").concat(e.message().as_str()),
        }
    }
}

/// What every processor implementation can do.
///
/// An update comes in two parts, as the operations of the channel do:
/// `update_request` says what to ask of the platform, if anything, and
/// `update` takes the answer.
pub trait CPU<'a>: Sized {
    /// The driver that is bound, if one is.
    spec fn bound_driver(&self) -> Option<DriverView>;

    /// Whether this implementation reads registers for an update of this
    /// kind. An update that reads none does nothing.
    spec fn reads_registers(&self, update_type: CpuUpdateTypes) -> bool;

    /// The number of logical cores.
    spec fn core_count(&self) -> u8;

    /// What to ask of the platform for an update of this kind: nothing for
    /// a kind that reads no register. Fails where a register is to be read
    /// and no driver is bound, or the channel of the one bound is not open.
    fn update_request(&self, update_type: CpuUpdateTypes) -> (result: Result<Option<IoRequest>, CpuError>)
        ensures
            !self.reads_registers(update_type) ==> result == Ok::<Option<IoRequest>, CpuError>(None),
            self.reads_registers(update_type) ==> match self.bound_driver() {
                None => result == Err::<Option<IoRequest>, CpuError>(CpuError::Unbound),
                Some(driver) => match driver.handle {
                    None => result == Err::<Option<IoRequest>, CpuError>(
                        CpuError::Driver(DriverError::NotOpen),
                    ),
                    Some(handle) => result matches Ok(Some(request)) && request.handle == handle,
                },
            },
    ;

    /// Brings up to date what `update_type` names, from the platform's
    /// answer to [`CPU::update_request`]. A kind that reads no register is
    /// no error and changes nothing. One that does fails without a driver,
    /// and changes nothing then.
    fn update(&mut self, update_type: CpuUpdateTypes, reply: Option<&IoReply>) -> (result: Result<(), CpuError>)
        ensures
            final(self).bound_driver() == old(self).bound_driver(),
            final(self).core_count() == old(self).core_count(),
            !old(self).reads_registers(update_type) ==> result is Ok && *final(self) == *old(self),
            old(self).reads_registers(update_type) && old(self).bound_driver() is None ==> result == Err::<
                (),
                CpuError,
            >(CpuError::Unbound) && *final(self) == *old(self),
    ;

    /// The number of logical cores.
    fn cores(&self) -> (cores: u8)
        ensures
            cores == self.core_count(),
    ;

    /// Binds the driver that registers are read through.
    fn set_driver(&mut self, driver: &'a WinRing0)
        ensures
            final(self).bound_driver() == Some(driver@),
            final(self).core_count() == old(self).core_count(),
    ;
}

/// The processor implementations that there are, one for each vendor that
/// is supported.
pub enum VendorCpu<'a> {
    Intel(IntelCPU<'a>),
}

/// What a [`VendorCpu`] holds.
pub enum VendorCpuView {
    Intel(IntelView),
}

impl<'a> View for VendorCpu<'a> {
    type V = VendorCpuView;

    open spec fn view(&self) -> VendorCpuView {
        match self {
            VendorCpu::Intel(cpu) => VendorCpuView::Intel(cpu@),
        }
    }
}

impl<'a> CPU<'a> for VendorCpu<'a> {
    open spec fn bound_driver(&self) -> Option<DriverView> {
        match self {
            VendorCpu::Intel(cpu) => cpu.bound_driver(),
        }
    }

    open spec fn reads_registers(&self, update_type: CpuUpdateTypes) -> bool {
        match self {
            VendorCpu::Intel(cpu) => cpu.reads_registers(update_type),
        }
    }

    open spec fn core_count(&self) -> u8 {
        match self {
            VendorCpu::Intel(cpu) => cpu.core_count(),
        }
    }

    fn update_request(&self, update_type: CpuUpdateTypes) -> (result: Result<Option<IoRequest>, CpuError>)
        ensures
            match self {
                VendorCpu::Intel(cpu) => cpu@.update_request(update_type, result),
            },
    {
        match self {
            VendorCpu::Intel(cpu) => cpu.update_request(update_type),
        }
    }

    fn update(&mut self, update_type: CpuUpdateTypes, reply: Option<&IoReply>) -> (result: Result<(), CpuError>)
        ensures
            match *old(self) {
                VendorCpu::Intel(cpu) => (final(self)@, result) == ({
                    let after = cpu@.after_update(
                        update_type,
                        match reply {
                            Some(reply) => Some(*reply),
                            None => None,
                        },
                    );
                    (VendorCpuView::Intel(after.0), after.1)
                }),
            },
    {
        match self {
            VendorCpu::Intel(cpu) => cpu.update(update_type, reply),
        }
    }

    fn cores(&self) -> (cores: u8) {
        match self {
            VendorCpu::Intel(cpu) => cpu.cores(),
        }
    }

    fn set_driver(&mut self, driver: &'a WinRing0)
        ensures
            match *old(self) {
                VendorCpu::Intel(cpu) => final(self)@ == VendorCpuView::Intel(
                    IntelView { driver: Some(driver@), ..cpu@ },
                ),
            },
    {
        match self {
            VendorCpu::Intel(cpu) => cpu.set_driver(driver),
        }
    }
}

/// The vendor string of Intel processors: `GenuineIntel`.
pub open spec fn genuine_intel() -> Seq<char> {
    seq!['G', 'e', 'n', 'u', 'i', 'n', 'e', 'I', 'n', 't', 'e', 'l']
}

/// What a [`CPUDevice`] holds.
pub struct CpuDeviceView {
    /// The driver that a processor is bound to when it is found.
    pub driver: Option<DriverView>,
    /// The processor that was found, if one was.
    pub cpu: Option<VendorCpuView>,
}

impl CpuDeviceView {
    /// The processor that is made for a vendor string and a family id, where
    /// the vendor is supported: new, of that family, and bound to the
    /// device's driver if it has one.
    pub open spec fn selected(self, vendor: Seq<char>, family_id: u8) -> Option<VendorCpuView> {
        if vendor == genuine_intel() {
            Some(
                VendorCpuView::Intel(IntelView { family_id, tj_max: 0, cores: 0, driver: self.driver }),
            )
        } else {
            None
        }
    }
}

/// Finds out which processor there is and holds the implementation for it.
pub struct CPUDevice<'a> {
    driver: Option<&'a WinRing0>,
    cpu: Option<VendorCpu<'a>>,
}

impl<'a> View for CPUDevice<'a> {
    type V = CpuDeviceView;

    closed spec fn view(&self) -> CpuDeviceView {
        CpuDeviceView {
            driver: match self.driver {
                Some(driver) => Some(driver@),
                None => None,
            },
            cpu: match self.cpu {
                Some(cpu) => Some(cpu@),
                None => None,
            },
        }
    }
}

impl<'a> CPUDevice<'a> {
    /// A device with no driver and no processor yet.
    pub fn new() -> (device: Self)
        ensures
            device@ == (CpuDeviceView { driver: None, cpu: None }),
    {
        CPUDevice { driver: None, cpu: None }
    }

    /// Sets the driver that the processor is bound to when it is found.
    pub fn set_driver(&mut self, driver: &'a WinRing0)
        ensures
            final(self)@ == (CpuDeviceView { driver: Some(driver@), ..old(self)@ }),
    {
        self.driver = Some(driver);
    }

    /// Finds out which processor this runs on, and selects the
    /// implementation for it, as [`CPUDevice::init_with`] does for what the
    /// processor reports. Fails, and changes nothing, where the processor
    /// does not say what it is or no implementation is made for its vendor.
    pub fn init(&mut self) -> (result: Result<(), CpuError>)
        ensures
            match result {
                Ok(()) => exists|family_id: u8|
                    final(self)@ == (CpuDeviceView {
                        cpu: #[trigger] old(self)@.selected(genuine_intel(), family_id),
                        ..old(self)@
                    }),
                Err(CpuError::UnsupportedVendor(vendor)) => vendor@ != genuine_intel() && final(self)@ == old(
                    self,
                )@,
                Err(CpuError::Unidentified) => final(self)@ == old(self)@,
                Err(_) => false,
            },
    {
        let vendor = match processor_vendor() {
            Some(vendor) => vendor,
            None => { return Err(CpuError::Unidentified); },
        };
        let family_id = match processor_family_id() {
            Some(family_id) => family_id,
            None => { return Err(CpuError::Unidentified); },
        };
        self.init_with(vendor.as_str(), family_id)
    }

    /// Selects the implementation for a processor that reports `vendor` and
    /// `family_id`: for `GenuineIntel` the one for Intel processors, bound
    /// to the device's driver if it has one. Any other vendor is an error
    /// that names it, and changes nothing.
    pub fn init_with(&mut self, vendor: &str, family_id: u8) -> (result: Result<(), CpuError>)
        ensures
            match old(self)@.selected(vendor@, family_id) {
                Some(cpu) => result is Ok && final(self)@ == (CpuDeviceView { cpu: Some(cpu), ..old(self)@ }),
                None => final(self)@ == old(self)@ && (result matches Err(CpuError::UnsupportedVendor(named))
                    && named@ == vendor@),
            },
    {
        proof {
            reveal_strlit("GenuineIntel");
        }
        assert("GenuineIntel"@ =~= genuine_intel());
        let reported = String::from_str(vendor);
        if reported == String::from_str("GenuineIntel") {
            let mut cpu = IntelCPU::with_family(family_id);
            match self.driver {
                Some(driver) => { cpu.set_driver(driver); },
                None => {},
            }
            self.cpu = Some(VendorCpu::Intel(cpu));
            Ok(())
        } else {
            Err(CpuError::UnsupportedVendor(reported))
        }
    }

    /// The processor that was found, if one was.
    pub fn cpu(&self) -> (cpu: Option<&VendorCpu<'a>>)
        ensures
            match cpu {
                Some(cpu) => self@.cpu == Some(cpu@),
                None => self@.cpu is None,
            },
    {
        self.cpu.as_ref()
    }

    /// Gives up the device for the processor that was found, if one was.
    pub fn into_cpu(self) -> (cpu: Option<VendorCpu<'a>>)
        ensures
            match cpu {
                Some(cpu) => self@.cpu == Some(cpu@),
                None => self@.cpu is None,
            },
    {
        self.cpu
    }
}

/// The processor that this runs on, bound to `driver`. Fails where the
/// processor does not say what it is or no implementation is made for its
/// vendor.
pub fn get_cpu<'a>(driver: &'a WinRing0) -> (result: Result<VendorCpu<'a>, CpuError>)
    ensures
        match result {
            Ok(cpu) => exists|family_id: u8|
                cpu@ == VendorCpuView::Intel(
                    #[trigger] new_intel(family_id, driver@),
                ),
            Err(CpuError::UnsupportedVendor(vendor)) => vendor@ != genuine_intel(),
            Err(CpuError::Unidentified) => true,
            Err(_) => false,
        },
{
    let mut device = CPUDevice::new();
    device.set_driver(driver);
    match device.init() {
        Ok(()) => {
            let ghost family_id = choose|family_id: u8|
                device@ == (CpuDeviceView {
                    cpu: #[trigger] (CpuDeviceView { driver: Some(driver@), cpu: None }).selected(
                        genuine_intel(),
                        family_id,
                    ),
                    driver: Some(driver@),
                });
            assert(device@.cpu == Some(VendorCpuView::Intel(new_intel(family_id, driver@))));
            match device.into_cpu() {
                Some(cpu) => Ok(cpu),
                None => vstd::pervasive::unreached(),
            }
        },
        Err(e) => Err(e),
    }
}

/// An Intel processor of which the family alone is known, bound to a
/// driver.
pub open spec fn new_intel(family_id: u8, driver: DriverView) -> IntelView {
    IntelView { family_id, tj_max: 0, cores: 0, driver: Some(driver) }
}

} // verus!
