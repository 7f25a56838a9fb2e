//! The processor's CPUID answers, read through the `raw_cpuid` crate. What
//! the processor answers depends on the machine, so nothing is claimed of
//! the values read here.

use vstd::prelude::*;
use raw_cpuid::{
    CpuId, ExtendedFeatures, ExtendedProcessorFeatureIdentifiers, FeatureInfo, ProcessorBrandString, ThermalPowerInfo,
    VendorInfo,
};

verus! {

#[verifier::external_type_specification]
#[verifier::external_body]
pub struct ExFeatureInfo(FeatureInfo);

#[verifier::external_type_specification]
#[verifier::external_body]
pub struct ExExtendedFeatures(ExtendedFeatures);

#[verifier::external_type_specification]
#[verifier::external_body]
pub struct ExVendorInfo(VendorInfo);

#[verifier::external_type_specification]
#[verifier::external_body]
pub struct ExProcessorBrandString(ProcessorBrandString);

#[verifier::external_type_specification]
#[verifier::external_body]
pub struct ExThermalPowerInfo(ThermalPowerInfo);

#[verifier::external_type_specification]
#[verifier::external_body]
pub struct ExExtendedProcessorFeatureIdentifiers(ExtendedProcessorFeatureIdentifiers);

/// `CpuId::get_vendor_info`, on the `CpuId::new` reader of this
/// processor: the vendor leaf, where the processor has it.
#[verifier::external_body]
pub(crate) fn vendor_info() -> Option<VendorInfo> {
    CpuId::new().get_vendor_info()
}

/// `VendorInfo::as_str`, copied into a `String`.
#[verifier::external_body]
pub(crate) fn vendor_text(v: &VendorInfo) -> String {
    v.as_str().to_string()
}

/// `CpuId::get_processor_brand_string`, on the `CpuId::new` reader of
/// this processor: the brand leaves, where the
/// processor has them.
#[verifier::external_body]
pub(crate) fn brand_string() -> Option<ProcessorBrandString> {
    CpuId::new().get_processor_brand_string()
}

/// `ProcessorBrandString::as_str`, copied into a `String`.
#[verifier::external_body]
pub(crate) fn brand_text(b: &ProcessorBrandString) -> String {
    b.as_str().to_string()
}

/// `CpuId::get_feature_info`, on the `CpuId::new` reader of this
/// processor: leaf 1, where the processor has it.
#[verifier::external_body]
pub(crate) fn feature_info() -> Option<FeatureInfo> {
    CpuId::new().get_feature_info()
}

/// `FeatureInfo::has_sse`
#[verifier::external_body]
pub(crate) fn has_sse(f: &FeatureInfo) -> bool {
    f.has_sse()
}

/// `FeatureInfo::has_sse2`
#[verifier::external_body]
pub(crate) fn has_sse2(f: &FeatureInfo) -> bool {
    f.has_sse2()
}

/// `FeatureInfo::has_sse3`
#[verifier::external_body]
pub(crate) fn has_sse3(f: &FeatureInfo) -> bool {
    f.has_sse3()
}

/// `FeatureInfo::has_ssse3`
#[verifier::external_body]
pub(crate) fn has_ssse3(f: &FeatureInfo) -> bool {
    f.has_ssse3()
}

/// `FeatureInfo::has_sse41`
#[verifier::external_body]
pub(crate) fn has_sse41(f: &FeatureInfo) -> bool {
    f.has_sse41()
}

/// `FeatureInfo::has_sse42`
#[verifier::external_body]
pub(crate) fn has_sse42(f: &FeatureInfo) -> bool {
    f.has_sse42()
}

/// `FeatureInfo::has_avx`
#[verifier::external_body]
pub(crate) fn has_avx(f: &FeatureInfo) -> bool {
    f.has_avx()
}

/// `FeatureInfo::has_popcnt`
#[verifier::external_body]
pub(crate) fn has_popcnt(f: &FeatureInfo) -> bool {
    f.has_popcnt()
}

/// `FeatureInfo::has_cmpxchg8b`
#[verifier::external_body]
pub(crate) fn has_cmpxchg8b(f: &FeatureInfo) -> bool {
    f.has_cmpxchg8b()
}

/// `FeatureInfo::has_cmpxchg16b`
#[verifier::external_body]
pub(crate) fn has_cmpxchg16b(f: &FeatureInfo) -> bool {
    f.has_cmpxchg16b()
}

/// `FeatureInfo::has_hypervisor`
#[verifier::external_body]
pub(crate) fn has_hypervisor(f: &FeatureInfo) -> bool {
    f.has_hypervisor()
}

/// `FeatureInfo::base_family_id`: bits 8 to 11 of leaf 1's EAX, so below
/// 16.
#[verifier::external_body]
pub(crate) fn base_family_id(f: &FeatureInfo) -> (r: u8)
    ensures
        r < 16,
{
    f.base_family_id()
}

/// `FeatureInfo::extended_family_id`: bits 20 to 27 of leaf 1's EAX.
#[verifier::external_body]
pub(crate) fn extended_family_id(f: &FeatureInfo) -> u8 {
    f.extended_family_id()
}

/// `FeatureInfo::model_id`
#[verifier::external_body]
pub(crate) fn model_id(f: &FeatureInfo) -> u8 {
    f.model_id()
}

/// `FeatureInfo::stepping_id`
#[verifier::external_body]
pub(crate) fn stepping_id(f: &FeatureInfo) -> u8 {
    f.stepping_id()
}

/// `CpuId::get_extended_feature_info`, on the `CpuId::new` reader of this
/// processor: leaf 7, where the processor has it.
#[verifier::external_body]
pub(crate) fn extended_feature_info() -> Option<ExtendedFeatures> {
    CpuId::new().get_extended_feature_info()
}

/// `ExtendedFeatures::has_avx2`
#[verifier::external_body]
pub(crate) fn has_avx2(f: &ExtendedFeatures) -> bool {
    f.has_avx2()
}

/// `CpuId::get_thermal_power_info`, on the `CpuId::new` reader of this
/// processor: leaf 6, where the processor has it.
#[verifier::external_body]
pub(crate) fn thermal_power_info() -> Option<ThermalPowerInfo> {
    CpuId::new().get_thermal_power_info()
}

/// `ThermalPowerInfo::has_hwp`
#[verifier::external_body]
pub(crate) fn has_hwp(t: &ThermalPowerInfo) -> bool {
    t.has_hwp()
}

/// `ThermalPowerInfo::has_turbo_boost`
#[verifier::external_body]
pub(crate) fn has_turbo_boost(t: &ThermalPowerInfo) -> bool {
    t.has_turbo_boost()
}

/// `ThermalPowerInfo::has_dts`
#[verifier::external_body]
pub(crate) fn has_dts(t: &ThermalPowerInfo) -> bool {
    t.has_dts()
}

/// `CpuId::get_extended_processor_and_feature_identifiers`, on the
/// `CpuId::new` reader of this processor: leaf
/// 0x8000_0001, where the processor has it.
#[verifier::external_body]
pub(crate) fn extended_processor_info() -> Option<ExtendedProcessorFeatureIdentifiers> {
    CpuId::new().get_extended_processor_and_feature_identifiers()
}

/// `ExtendedProcessorFeatureIdentifiers::has_ibs`
#[verifier::external_body]
pub(crate) fn has_ibs(e: &ExtendedProcessorFeatureIdentifiers) -> bool {
    e.has_ibs()
}

/// `ExtendedProcessorFeatureIdentifiers::has_topology_extensions`
#[verifier::external_body]
pub(crate) fn has_topology_extensions(e: &ExtendedProcessorFeatureIdentifiers) -> bool {
    e.has_topology_extensions()
}

} // verus!
