//! CPU subsystem: identification, features, power profiles and performance
//! counters.

pub mod cpuid;
pub mod features;
pub mod identification;
pub mod power;
pub mod performance;

use vstd::prelude::*;
use self::identification::{CpuInfoCache, detect_cpu};
use self::power::MsrWrite;

verus! {

/// Initialize CPU subsystem: identify the CPU, then refuse one without
/// the required features.
pub fn init(cache: &mut CpuInfoCache) -> (r: Result<(), &'static str>)
    ensures
        final(cache).info is Some,
        r is Ok || r == Err::<(), &'static str>("CPU does not support required features for OS Gaming"),
        exists|p: features::FeatureProbe| (r is Ok) == #[trigger] features::required_in(p),
{
    let _cpu_info = detect_cpu(cache);
    if !features::has_required_features() {
        return Err("CPU does not support required features for OS Gaming");
    }
    power::init()?;
    performance::init()?;
    Ok(())
}

/// Configure gaming-optimized CPU settings: the performance profile's
/// register writes, then those that start the counters.
pub fn configure_gaming_mode(cache: &CpuInfoCache) -> (r: Result<Vec<MsrWrite>, &'static str>)
    ensures
        r is Err ==> power::mode_writes(r, power::performance_profile(power::max_frequency_for(power::cached_vendor(*cache))), *cache),
        r matches Ok(w) ==> exists|v: Vec<MsrWrite>| power::mode_writes(Ok(v), power::performance_profile(
            power::max_frequency_for(power::cached_vendor(*cache)),
        ), *cache) && w@ == v@ + seq![
            MsrWrite { msr: performance::IA32_PERFEVTSEL0, value: performance::config_value(performance::counting(performance::INST_RETIRED)) },
            MsrWrite { msr: (performance::IA32_PERFEVTSEL0 + 1) as u32, value: performance::config_value(performance::counting(performance::CPU_CLK_UNHALTED)) },
            MsrWrite { msr: performance::IA32_PMC0, value: 0 },
            MsrWrite { msr: (performance::IA32_PMC0 + 1) as u32, value: 0 },
        ],
{
    let mut writes = power::set_performance_mode(cache)?;
    let ghost first = writes;
    features::optimize_cache_for_gaming();
    let mut counters = performance::start_monitoring();
    writes.append(&mut counters);
    Ok(writes)
}

} // verus!
