//! Intel processors.

use crate::cpu::{CpuError, CpuUpdateTypes, CPU};
use crate::cpuid::temperature_target_register;
use crate::driver::{DriverView, IoReply, IoRequest};
use crate::error::DriverError;
use crate::msr::{bit_field, extract, lemma_field_of_low_half, low_half, low_half_of};
use crate::table::IOCTL;
use crate::win_ring0::WinRing0;
use crate::wire::{request_bytes, RESPONSE_LEN};
use vstd::prelude::*;

verus! {

/// The index of the register that holds the temperature target.
pub const MSR_TEMPERATURE_TARGET: u32 = 0x1a2;

/// What an [`IntelCPU`] holds.
pub struct IntelView {
    /// The family id that the processor reported.
    pub family_id: u8,
    /// The temperature target, in degrees Celsius: the reference that the
    /// processor's thermal sensors count down from.
    pub tj_max: u32,
    /// The number of logical cores.
    pub cores: u8,
    /// The driver that registers are read through, once one is bound.
    pub driver: Option<DriverView>,
}

/// The temperature target that a value of the temperature target register
/// holds: bits 16 to 23.
pub open spec fn tj_max_of(value: u64) -> u32 {
    bit_field(value, 16, 8) as u32
}

/// Whether an Intel processor reads registers for an update of this kind:
/// for the temperature only, so far.
pub open spec fn reads_registers(update_type: CpuUpdateTypes) -> bool {
    update_type is Temperature || update_type is All
}

impl IntelView {
    /// What [`CPU::update_request`] gives.
    pub open spec fn update_request(self, update_type: CpuUpdateTypes, result: Result<
        Option<IoRequest>,
        CpuError,
    >) -> bool {
        if !reads_registers(update_type) {
            result == Ok::<Option<IoRequest>, CpuError>(None)
        } else {
            match self.driver {
                None => result == Err::<Option<IoRequest>, CpuError>(CpuError::Unbound),
                Some(driver) => match driver.handle {
                    None => result == Err::<Option<IoRequest>, CpuError>(
                        CpuError::Driver(DriverError::NotOpen),
                    ),
                    Some(handle) => result matches Ok(Some(request)) && {
                        &&& request.handle == handle
                        &&& request.ioctl_code == IOCTL::OLS_READ_MSR.control_code()
                        &&& request.input@ == request_bytes(MSR_TEMPERATURE_TARGET)
                        &&& request.output_len == RESPONSE_LEN
                    },
                },
            }
        }
    }

    /// The processor after an update, and what the caller is told. An update
    /// that reads no register changes nothing. One that does needs a driver
    /// and the platform's answer, and takes the temperature target from it.
    pub open spec fn after_update(self, update_type: CpuUpdateTypes, reply: Option<IoReply>) -> (
        IntelView,
        Result<(), CpuError>,
    ) {
        if !reads_registers(update_type) {
            (self, Ok(()))
        } else {
            match (self.driver, reply) {
                (None, _) => (self, Err(CpuError::Unbound)),
                (Some(driver), None) => (self, Err(CpuError::MissingReply)),
                (Some(driver), Some(reply)) => match driver.io_result(IOCTL::OLS_READ_MSR.control_code(), reply) {
                    Ok(value) => (IntelView { tj_max: tj_max_of(value), ..self }, Ok(())),
                    Err(e) => (self, Err(CpuError::Driver(e))),
                },
            }
        }
    }
}

/// The temperature target that a value of the temperature target register
/// holds: bits 16 to 23 of its low half.
pub fn tj_max_from(value: u64) -> (tj_max: u32)
    ensures
        tj_max == tj_max_of(value),
        tj_max == bit_field(low_half_of(value) as u64, 16, 8),
        tj_max < 256,
{
    let eax = low_half(value);
    proof {
        lemma_field_of_low_half(value, 16, 8);
        vstd::arithmetic::power2::lemma2_to64();
    }
    extract(eax as u64, 16, 8) as u32
}

/// An Intel processor.
pub struct IntelCPU<'a> {
    family_id: u8,
    tj_max: u32,
    driver: Option<&'a WinRing0>,
    cores: u8,
}

impl<'a> View for IntelCPU<'a> {
    type V = IntelView;

    closed spec fn view(&self) -> IntelView {
        IntelView {
            family_id: self.family_id,
            tj_max: self.tj_max,
            cores: self.cores,
            driver: match self.driver {
                Some(driver) => Some(driver@),
                None => None,
            },
        }
    }
}

impl<'a> IntelCPU<'a> {
    /// A processor of which nothing is known yet, bound to no driver.
    pub fn new() -> (cpu: Self)
        ensures
            cpu@ == (IntelView { family_id: 0, tj_max: 0, cores: 0, driver: None }),
    {
        IntelCPU { driver: None, family_id: 0, tj_max: 0, cores: 0 }
    }

    /// A processor of the given family, bound to no driver.
    pub fn with_family(family_id: u8) -> (cpu: Self)
        ensures
            cpu@ == (IntelView { family_id, tj_max: 0, cores: 0, driver: None }),
    {
        IntelCPU { driver: None, family_id, tj_max: 0, cores: 0 }
    }

    /// The family id that the processor reported.
    pub fn family_id(&self) -> (family_id: u8)
        ensures
            family_id == self@.family_id,
    {
        self.family_id
    }

    /// The temperature target that the last update read; zero before.
    pub fn tj_max(&self) -> (tj_max: u32)
        ensures
            tj_max == self@.tj_max,
    {
        self.tj_max
    }

    /// What to ask of the platform in order to read the temperature target.
    /// Without a driver there is nothing to ask through.
    pub fn tjmax_request(&self) -> (result: Result<IoRequest, CpuError>)
        ensures
            self@.update_request(
                CpuUpdateTypes::Temperature,
                match result {
                    Ok(request) => Ok(Some(request)),
                    Err(e) => Err(e),
                },
            ),
    {
        let driver = match self.driver {
            Some(driver) => driver,
            None => { return Err(CpuError::Unbound); },
        };
        match driver.read_msr_request(temperature_target_register()) {
            Ok(request) => Ok(request),
            Err(e) => {
                assert(e == DriverError::NotOpen);
                Err(CpuError::Driver(e))
            },
        }
    }

    /// Takes the temperature target from the platform's answer to
    /// [`IntelCPU::tjmax_request`], and gives it back.
    pub fn update_tjmax(&mut self, reply: &IoReply) -> (result: Result<u32, CpuError>)
        ensures
            final(self)@ == old(self)@.after_update(CpuUpdateTypes::Temperature, Some(*reply)).0,
            match result {
                Ok(tj_max) => tj_max == final(self)@.tj_max && old(self)@.after_update(
                    CpuUpdateTypes::Temperature,
                    Some(*reply),
                ).1 is Ok,
                Err(e) => old(self)@.after_update(CpuUpdateTypes::Temperature, Some(*reply)).1 == Err::<
                    (),
                    CpuError,
                >(e),
            },
    {
        let driver = match self.driver {
            Some(driver) => driver,
            None => { return Err(CpuError::Unbound); },
        };
        let out = match driver.readMsr(reply) {
            Ok(out) => out,
            Err(e) => { return Err(CpuError::Driver(e)); },
        };
        let result = tj_max_from(out);
        self.tj_max = result;
        Ok(result)
    }
}

impl<'a> CPU<'a> for IntelCPU<'a> {
    open spec fn bound_driver(&self) -> Option<DriverView> {
        self@.driver
    }

    open spec fn reads_registers(&self, update_type: CpuUpdateTypes) -> bool {
        reads_registers(update_type)
    }

    open spec fn core_count(&self) -> u8 {
        self@.cores
    }

    fn update_request(&self, update_type: CpuUpdateTypes) -> (result: Result<Option<IoRequest>, CpuError>)
        ensures
            self@.update_request(update_type, result),
    {
        match update_type {
            CpuUpdateTypes::Temperature | CpuUpdateTypes::All => match self.tjmax_request() {
                Ok(request) => Ok(Some(request)),
                Err(e) => Err(e),
            },
            CpuUpdateTypes::Frequency | CpuUpdateTypes::Load => Ok(None),
        }
    }

    fn update(&mut self, update_type: CpuUpdateTypes, reply: Option<&IoReply>) -> (result: Result<(), CpuError>)
        ensures
            (final(self)@, result) == old(self)@.after_update(
                update_type,
                match reply {
                    Some(reply) => Some(*reply),
                    None => None,
                },
            ),
    {
        match update_type {
            CpuUpdateTypes::Temperature | CpuUpdateTypes::All => {
                if self.driver.is_none() {
                    return Err(CpuError::Unbound);
                }
                match reply {
                    Some(reply) => match self.update_tjmax(reply) {
                        Ok(_) => Ok(()),
                        Err(e) => Err(e),
                    },
                    None => Err(CpuError::MissingReply),
                }
            },
            CpuUpdateTypes::Frequency | CpuUpdateTypes::Load => Ok(()),
        }
    }

    fn cores(&self) -> (cores: u8)
        ensures
            cores == self@.cores,
    {
        self.cores
    }

    fn set_driver(&mut self, driver: &'a WinRing0)
        ensures
            final(self)@ == (IntelView { driver: Some(driver@), ..old(self)@ }),
    {
        self.driver = Some(driver);
    }
}

} // verus!
