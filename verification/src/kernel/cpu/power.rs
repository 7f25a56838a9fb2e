//! CPU power management: performance profiles and the model-specific
//! register writes that apply them.

use vstd::prelude::*;
use super::cpuid;
use super::identification::{CpuInfoCache, get_cpu_info};
use crate::scan::{contains_seq, contains_str};
use crate::text::{chars_of, str_equal};

verus! {

/// Performance power profile
#[derive(Debug, Clone, Copy)]
pub struct PerformanceProfile {
    pub min_frequency: u64,
    pub max_frequency: u64,
    pub turbo_enabled: bool,
    /// In watts
    pub power_limit: u64,
}

/// Power management features of the processor
#[derive(Debug, Clone, Copy, PartialEq, Eq, Structural)]
pub enum CpuFeature {
    /// Hardware P-states
    HWP,
    TurboBoost,
    PowerLimit,
}

/// A write of `value` to model-specific register `msr`.
#[derive(Debug, Clone, Copy, PartialEq, Eq, Structural)]
pub struct MsrWrite {
    pub msr: u32,
    pub value: u64,
}

pub const IA32_PERF_CTL: u32 = 0x199;
pub const MSR_RAPL_POWER_UNIT: u32 = 0x606;
pub const MSR_PKG_POWER_LIMIT: u32 = 0x610;
pub const IA32_PM_ENABLE: u32 = 0x770;
pub const IA32_HWP_REQUEST: u32 = 0x774;
pub const MSR_PSTATE_CURRENT_LIMIT: u32 = 0xC0010061;
pub const MSR_PSTATE_CONTROL: u32 = 0xC0010062;

impl Default for PerformanceProfile {
    /// Hardware defaults: no frequency bounds, turbo on, no power limit.
    fn default() -> (p: Self)
        ensures
            p.min_frequency == 0 && p.max_frequency == u64::MAX && p.turbo_enabled && p.power_limit == 0,
    {
        Self { min_frequency: 0, max_frequency: u64::MAX, turbo_enabled: true, power_limit: 0 }
    }
}

/// Initialize CPU power management
pub fn init() -> (r: Result<(), &'static str>)
    ensures
        r is Ok,
{
    Ok(())
}

/// The maximum frequency assumed for a vendor: 3.6 GHz for Intel, 3.8 GHz
/// for AMD, 3 GHz otherwise or when nothing is known.
pub open spec fn max_frequency_for(vendor: Option<Seq<char>>) -> u64 {
    match vendor {
        Some(v) => if v == "GenuineIntel"@ {
            3_600_000_000
        } else if v == "AuthenticAMD"@ {
            3_800_000_000
        } else {
            3_000_000_000
        },
        None => 3_000_000_000,
    }
}

/// The vendor the cache holds, if the CPU was identified.
pub open spec fn cached_vendor(cache: CpuInfoCache) -> Option<Seq<char>> {
    match cache.info {
        Some(i) => Some(i.vendor_id@),
        None => None,
    }
}

/// Get the maximum CPU frequency
pub fn get_max_frequency(cache: &CpuInfoCache) -> (f: u64)
    ensures
        f == max_frequency_for(cached_vendor(*cache)),
{
    proof {
        reveal_strlit("GenuineIntel");
        reveal_strlit("AuthenticAMD");
    }
    match get_cpu_info(cache) {
        Some(info) => {
            if str_equal(info.vendor_id.as_str(), "GenuineIntel") {
                3_600_000_000
            } else if str_equal(info.vendor_id.as_str(), "AuthenticAMD") {
                3_800_000_000
            } else {
                3_000_000_000
            }
        },
        None => 3_000_000_000,
    }
}

/// Get current CPU frequency: not measured, so never known.
pub fn get_current_frequency() -> (f: Option<u64>)
    ensures
        f is None,
{
    None
}

/// The register writes that apply a profile. On Intel (a vendor naming
/// "Intel"): with hardware P-states, enable them and request the profile's
/// bounds in units of 100 MHz; without, set the P-state ratio; then, for a
/// power limit, set it in the processor's power units (`1 << (unit & 0xF)`
/// per watt, `unit` being the power-unit register) with a 28 s window. On
/// AMD: limit the P-states (P0 with turbo, P1 without) and select it.
/// Refused for any other vendor.
pub open spec fn profile_writes(p: PerformanceProfile, vendor: Option<Seq<char>>, hwp: bool, unit: u64) -> Option<
    Seq<MsrWrite>,
> {
    let is_intel = vendor matches Some(v) && contains_seq(v, "Intel"@);
    let is_amd = vendor matches Some(v) && contains_seq(v, "AMD"@);
    if is_intel {
        let min_perf = p.min_frequency / 100_000_000;
        let max_perf = p.max_frequency / 100_000_000;
        let pstate = if hwp {
            seq![
                MsrWrite { msr: IA32_PM_ENABLE, value: 1 },
                MsrWrite { msr: IA32_HWP_REQUEST, value: min_perf | (max_perf << 8u64) | (0xFFu64 << 16u64) },
            ]
        } else {
            seq![MsrWrite { msr: IA32_PERF_CTL, value: max_perf << 8u64 }]
        };
        if p.power_limit > 0 {
            let power_unit = 1u64 << (unit & 0xF);
            Some(pstate.push(MsrWrite {
                msr: MSR_PKG_POWER_LIMIT,
                value: ((p.power_limit * power_unit) as u64) | (6u64 << 17u64) | (1u64 << 15u64),
            }))
        } else {
            Some(pstate)
        }
    } else if is_amd {
        let max_pstate: u64 = if p.turbo_enabled { 0 } else { 1 };
        Some(seq![
            MsrWrite { msr: MSR_PSTATE_CURRENT_LIMIT, value: (max_pstate & 7) | ((8u64 & 7) << 4u64) },
            MsrWrite { msr: MSR_PSTATE_CONTROL, value: max_pstate },
        ])
    } else {
        None
    }
}

/// The power limit of a profile fits in 64 bits once converted to the
/// processor's power units.
pub open spec fn power_limit_fits(p: PerformanceProfile, unit: u64) -> bool {
    p.power_limit * (1u64 << (unit & 0xF)) <= u64::MAX
}

/// The register writes that apply a profile to a processor of this vendor,
/// as `profile_writes` says; `hwp` tells whether it has hardware P-states
/// and `power_unit_msr` is its power-unit register.
pub fn profile_msr_writes(
    profile: &PerformanceProfile,
    vendor: Option<&String>,
    hwp: bool,
    power_unit_msr: u64,
) -> (r: Result<Vec<MsrWrite>, &'static str>)
    requires
        power_limit_fits(*profile, power_unit_msr),
    ensures
        match profile_writes(*profile, match vendor { Some(v) => Some(v@), None => None }, hwp, power_unit_msr) {
            Some(w) => r matches Ok(v) && v@ == w,
            None => r == Err::<Vec<MsrWrite>, &'static str>("Unsupported CPU vendor for performance control"),
        },
{
    let (is_intel, is_amd) = match vendor {
        Some(v) => {
            let chars = chars_of(v.as_str());
            (contains_str(&chars, "Intel"), contains_str(&chars, "AMD"))
        },
        None => (false, false),
    };
    let mut writes: Vec<MsrWrite> = Vec::new();
    if is_intel {
        let min_perf = profile.min_frequency / 100_000_000;
        let max_perf = profile.max_frequency / 100_000_000;
        if hwp {
            writes.push(MsrWrite { msr: IA32_PM_ENABLE, value: 1 });
            let hwp_request = min_perf | (max_perf << 8) | (0xFFu64 << 16) | (0x00u64 << 24);
            assert(min_perf | (max_perf << 8u64) | (0xFFu64 << 16u64) | (0x00u64 << 24u64) == min_perf | (max_perf << 8u64)
                | (0xFFu64 << 16u64)) by (bit_vector);
            writes.push(MsrWrite { msr: IA32_HWP_REQUEST, value: hwp_request });
        } else {
            writes.push(MsrWrite { msr: IA32_PERF_CTL, value: max_perf << 8 });
        }
        if profile.power_limit > 0 {
            let shift = power_unit_msr & 0xF;
            assert(shift <= 15) by (bit_vector)
                requires
                    shift == power_unit_msr & 0xF,
            ;
            let power_unit = 1u64 << shift;
            let power_limit_msr = profile.power_limit * power_unit;
            let time_window: u64 = 0x6 << 17;
            let limit_enabled: u64 = 1 << 15;
            writes.push(MsrWrite { msr: MSR_PKG_POWER_LIMIT, value: power_limit_msr | time_window | limit_enabled });
        }
        Ok(writes)
    } else if is_amd {
        let max_pstate: u64 = if profile.turbo_enabled { 0 } else { 1 };
        let min_pstate: u64 = 8;
        let pstate_limit = (max_pstate & 0x7) | ((min_pstate & 0x7) << 4);
        writes.push(MsrWrite { msr: MSR_PSTATE_CURRENT_LIMIT, value: pstate_limit });
        writes.push(MsrWrite { msr: MSR_PSTATE_CONTROL, value: max_pstate });
        Ok(writes)
    } else {
        Err("Unsupported CPU vendor for performance control")
    }
}

} // verus!

verus! {

/// What CPUID reports about power management: the thermal and power leaf's
/// flags (hardware P-states, turbo boost, digital thermal sensor), the
/// vendor, and the AMD extended flags (IBS, topology extensions).
#[derive(Debug)]
pub struct PowerProbe {
    pub thermal: Option<(bool, bool, bool)>,
    pub vendor: Option<String>,
    pub extended: Option<(bool, bool)>,
}

/// Reads the power management flags from CPUID.
pub fn probe_power() -> PowerProbe {
    let thermal = match cpuid::thermal_power_info() {
        Some(t) => Some((cpuid::has_hwp(&t), cpuid::has_turbo_boost(&t), cpuid::has_dts(&t))),
        None => None,
    };
    let vendor = match cpuid::vendor_info() {
        Some(v) => Some(cpuid::vendor_text(&v)),
        None => None,
    };
    let extended = match cpuid::extended_processor_info() {
        Some(e) => Some((cpuid::has_ibs(&e), cpuid::has_topology_extensions(&e))),
        None => None,
    };
    PowerProbe { thermal, vendor, extended }
}

/// Whether the probe reports a power feature: each follows its flag of the
/// thermal and power leaf; without that leaf only turbo boost can be found,
/// on an "AuthenticAMD" processor with IBS or topology extensions.
pub open spec fn power_feature_in(p: PowerProbe, f: CpuFeature) -> bool {
    match p.thermal {
        Some(t) => match f {
            CpuFeature::HWP => t.0,
            CpuFeature::TurboBoost => t.1,
            CpuFeature::PowerLimit => t.2,
        },
        None => f == CpuFeature::TurboBoost && (p.vendor matches Some(v) && v@ == "AuthenticAMD"@) && (
        p.extended matches Some(e) && (e.0 || e.1)),
    }
}

/// Whether the probe reports a power feature, as `power_feature_in` says.
pub fn power_feature_supported(probe: &PowerProbe, feature: CpuFeature) -> (b: bool)
    ensures
        b == power_feature_in(*probe, feature),
{
    proof {
        reveal_strlit("AuthenticAMD");
    }
    match probe.thermal {
        Some(t) => match feature {
            CpuFeature::HWP => t.0,
            CpuFeature::TurboBoost => t.1,
            CpuFeature::PowerLimit => t.2,
        },
        None => {
            match feature {
                CpuFeature::TurboBoost => {
                    match &probe.vendor {
                        Some(v) => {
                            if str_equal(v.as_str(), "AuthenticAMD") {
                                match probe.extended {
                                    Some(e) => e.0 || e.1,
                                    None => false,
                                }
                            } else {
                                false
                            }
                        },
                        None => false,
                    }
                },
                _ => false,
            }
        },
    }
}

/// Check if CPU supports a specific power management feature
pub fn has_feature(feature: CpuFeature) -> (b: bool)
    ensures
        exists|p: PowerProbe| b == #[trigger] power_feature_in(p, feature),
{
    let p = probe_power();
    power_feature_supported(&p, feature)
}

/// The register writes that apply a profile to this processor, as
/// `profile_writes` says, hardware P-states as CPUID reports them;
/// `power_unit_msr` is the processor's power-unit register.
pub fn apply_profile(profile: &PerformanceProfile, cache: &CpuInfoCache, power_unit_msr: u64) -> (r: Result<
    Vec<MsrWrite>,
    &'static str,
>)
    requires
        power_limit_fits(*profile, power_unit_msr),
    ensures
        exists|hwp: bool|
            match #[trigger] profile_writes(*profile, cached_vendor(*cache), hwp, power_unit_msr) {
                Some(w) => r matches Ok(v) && v@ == w,
                None => r == Err::<Vec<MsrWrite>, &'static str>("Unsupported CPU vendor for performance control"),
            },
{
    let hwp = has_feature(CpuFeature::HWP);
    let info = get_cpu_info(cache);
    match &info {
        Some(i) => profile_msr_writes(profile, Some(&i.vendor_id), hwp, power_unit_msr),
        None => profile_msr_writes(profile, None, hwp, power_unit_msr),
    }
}

/// The profile for gaming: at least half the maximum frequency, turbo on,
/// no power limit.
pub open spec fn performance_profile(max: u64) -> PerformanceProfile {
    PerformanceProfile { min_frequency: max / 2, max_frequency: max, turbo_enabled: true, power_limit: 0 }
}

/// The balanced profile: any frequency up to the maximum, turbo on.
pub open spec fn balanced_profile(max: u64) -> PerformanceProfile {
    PerformanceProfile { min_frequency: 0, max_frequency: max, turbo_enabled: true, power_limit: 0 }
}

/// The power saving profile: at most half the maximum frequency, no turbo.
pub open spec fn power_saving_profile(max: u64) -> PerformanceProfile {
    PerformanceProfile { min_frequency: 0, max_frequency: max / 2, turbo_enabled: false, power_limit: 0 }
}

/// The writes of a profile built from the vendor's maximum frequency.
pub open spec fn mode_writes(
    r: Result<Vec<MsrWrite>, &'static str>,
    profile: PerformanceProfile,
    cache: CpuInfoCache,
) -> bool {
    exists|hwp: bool|
        match #[trigger] profile_writes(profile, cached_vendor(cache), hwp, 0) {
            Some(w) => r matches Ok(v) && v@ == w,
            None => r == Err::<Vec<MsrWrite>, &'static str>("Unsupported CPU vendor for performance control"),
        }
}

/// Set performance mode for gaming
pub fn set_performance_mode(cache: &CpuInfoCache) -> (r: Result<Vec<MsrWrite>, &'static str>)
    ensures
        mode_writes(r, performance_profile(max_frequency_for(cached_vendor(*cache))), *cache),
{
    let max = get_max_frequency(cache);
    let profile = PerformanceProfile {
        min_frequency: get_max_frequency(cache) / 2,
        max_frequency: max,
        turbo_enabled: true,
        power_limit: 0,
    };
    apply_profile(&profile, cache, 0)
}

/// Set balanced mode (performance/power)
pub fn set_balanced_mode(cache: &CpuInfoCache) -> (r: Result<Vec<MsrWrite>, &'static str>)
    ensures
        mode_writes(r, balanced_profile(max_frequency_for(cached_vendor(*cache))), *cache),
{
    let profile = PerformanceProfile {
        min_frequency: 0,
        max_frequency: get_max_frequency(cache),
        turbo_enabled: true,
        power_limit: 0,
    };
    apply_profile(&profile, cache, 0)
}

/// Set power saving mode
pub fn set_power_saving_mode(cache: &CpuInfoCache) -> (r: Result<Vec<MsrWrite>, &'static str>)
    ensures
        mode_writes(r, power_saving_profile(max_frequency_for(cached_vendor(*cache))), *cache),
{
    let profile = PerformanceProfile {
        min_frequency: 0,
        max_frequency: get_max_frequency(cache) / 2,
        turbo_enabled: false,
        power_limit: 0,
    };
    apply_profile(&profile, cache, 0)
}

} // verus!
