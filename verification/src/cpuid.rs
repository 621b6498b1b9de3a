//! Facts about the processor, as outside crates report them.

use vstd::prelude::*;

verus! {

/// The vendor string of the processor that this runs on, or `None` where the
/// processor does not report one.
///
/// Calls `raw_cpuid::CpuId::new`, `get_vendor_info` and `VendorInfo::as_str`.
/// What comes back depends on the machine: nothing is claimed of it.
#[verifier::external_body]
pub(crate) fn processor_vendor() -> (vendor: Option<String>) {
    raw_cpuid::CpuId::new().get_vendor_info().map(|info| info.as_str().to_string())
}

/// The family id of the processor that this runs on, or `None` where the
/// processor does not report its features.
///
/// Calls `raw_cpuid::CpuId::new`, `get_feature_info` and
/// `FeatureInfo::family_id`. What comes back depends on the machine: nothing
/// is claimed of it.
#[verifier::external_body]
pub(crate) fn processor_family_id() -> (family_id: Option<u8>) {
    raw_cpuid::CpuId::new().get_feature_info().map(|info| info.family_id())
}

/// The index of the model-specific register that holds the temperature
/// target of an Intel processor.
///
/// Reads the constant `x86::msr::MSR_TEMPERATURE_TARGET`, which is `0x1a2`.
#[verifier::external_body]
pub(crate) fn temperature_target_register() -> (index: u32)
    ensures
        index == 0x1a2,
{
    x86::msr::MSR_TEMPERATURE_TARGET
}

} // verus!
