//! CPU performance monitoring: the counter configurations and the
//! model-specific register writes that start and stop counting.

use vstd::prelude::*;
use super::power::MsrWrite;

verus! {

/// First performance counter
pub const IA32_PMC0: u32 = 0x0C1;
/// First event select register
pub const IA32_PERFEVTSEL0: u32 = 0x186;
/// Instructions retired
pub const INST_RETIRED: u64 = 0x00C0;
/// CPU cycles
pub const CPU_CLK_UNHALTED: u64 = 0x003C;

/// Performance counter configuration
#[derive(Debug, Clone, Copy)]
pub struct PerfCounterConfig {
    pub event: u64,
    pub user_mode: bool,
    pub os_mode: bool,
    pub edge_detect: bool,
    pub pin_control: bool,
    pub apic_interrupt: bool,
    pub enable: bool,
}

/// The event select value of a configuration: the event's two low bytes,
/// then one bit each for user mode (16), OS mode (17), edge detect (18),
/// pin control (19), APIC interrupt (20) and enable (22).
pub open spec fn config_value(c: PerfCounterConfig) -> u64 {
    (c.event & 0xFF) | (((c.event >> 8u64) & 0xFF) << 8u64) | (if c.user_mode { 1u64 << 16u64 } else { 0 }) | (
    if c.os_mode { 1u64 << 17u64 } else { 0 }) | (if c.edge_detect { 1u64 << 18u64 } else { 0 }) | (
    if c.pin_control { 1u64 << 19u64 } else { 0 }) | (if c.apic_interrupt { 1u64 << 20u64 } else { 0 }) | (
    if c.enable { 1u64 << 22u64 } else { 0 })
}

impl PerfCounterConfig {
    /// The event select value, as `config_value` says.
    pub fn to_value(&self) -> (v: u64)
        ensures
            v == config_value(*self),
    {
        let mut value = self.event & 0xFF;
        value = value | (((self.event >> 8) & 0xFF) << 8);
        let u: u64 = if self.user_mode { 1 << 16 } else { 0 };
        let o: u64 = if self.os_mode { 1 << 17 } else { 0 };
        let e: u64 = if self.edge_detect { 1 << 18 } else { 0 };
        let p: u64 = if self.pin_control { 1 << 19 } else { 0 };
        let a: u64 = if self.apic_interrupt { 1 << 20 } else { 0 };
        let n: u64 = if self.enable { 1 << 22 } else { 0 };
        value | u | o | e | p | a | n
    }
}

/// Performance monitoring data
#[derive(Debug, Clone, Copy)]
pub struct PerfData {
    pub instructions: u64,
    pub cycles: u64,
    pub cache_misses: u64,
    pub branch_misses: u64,
}

impl Default for PerfData {
    fn default() -> (d: Self)
        ensures
            d.instructions == 0 && d.cycles == 0 && d.cache_misses == 0 && d.branch_misses == 0,
    {
        PerfData { instructions: 0, cycles: 0, cache_misses: 0, branch_misses: 0 }
    }
}

/// Initialize performance monitoring
pub fn init() -> (r: Result<(), &'static str>)
    ensures
        r is Ok,
{
    Ok(())
}

/// A counter set to count an event in user and OS mode.
pub open spec fn counting(event: u64) -> PerfCounterConfig {
    PerfCounterConfig {
        event,
        user_mode: true,
        os_mode: true,
        edge_detect: false,
        pin_control: false,
        apic_interrupt: false,
        enable: true,
    }
}

/// Start monitoring: the register writes that set the first counter to
/// instructions retired and the second to cycles, then clear both.
pub fn start_monitoring() -> (w: Vec<MsrWrite>)
    ensures
        w@ == seq![
            MsrWrite { msr: IA32_PERFEVTSEL0, value: config_value(counting(INST_RETIRED)) },
            MsrWrite { msr: (IA32_PERFEVTSEL0 + 1) as u32, value: config_value(counting(CPU_CLK_UNHALTED)) },
            MsrWrite { msr: IA32_PMC0, value: 0 },
            MsrWrite { msr: (IA32_PMC0 + 1) as u32, value: 0 },
        ],
{
    let inst_config = PerfCounterConfig {
        event: INST_RETIRED,
        user_mode: true,
        os_mode: true,
        edge_detect: false,
        pin_control: false,
        apic_interrupt: false,
        enable: true,
    };
    let cycle_config = PerfCounterConfig {
        event: CPU_CLK_UNHALTED,
        user_mode: true,
        os_mode: true,
        edge_detect: false,
        pin_control: false,
        apic_interrupt: false,
        enable: true,
    };
    let w = vec![
        MsrWrite { msr: IA32_PERFEVTSEL0, value: inst_config.to_value() },
        MsrWrite { msr: IA32_PERFEVTSEL0 + 1, value: cycle_config.to_value() },
        MsrWrite { msr: IA32_PMC0, value: 0 },
        MsrWrite { msr: IA32_PMC0 + 1, value: 0 },
    ];
    assert(w@ =~= seq![
        MsrWrite { msr: IA32_PERFEVTSEL0, value: config_value(counting(INST_RETIRED)) },
        MsrWrite { msr: (IA32_PERFEVTSEL0 + 1) as u32, value: config_value(counting(CPU_CLK_UNHALTED)) },
        MsrWrite { msr: IA32_PMC0, value: 0 },
        MsrWrite { msr: (IA32_PMC0 + 1) as u32, value: 0 },
    ]);
    w
}

/// Stop monitoring: the register writes that disable both counters.
pub fn stop_monitoring() -> (w: Vec<MsrWrite>)
    ensures
        w@ == seq![
            MsrWrite { msr: IA32_PERFEVTSEL0, value: 0 },
            MsrWrite { msr: (IA32_PERFEVTSEL0 + 1) as u32, value: 0 },
        ],
{
    let w = vec![MsrWrite { msr: IA32_PERFEVTSEL0, value: 0 }, MsrWrite { msr: IA32_PERFEVTSEL0 + 1, value: 0 }];
    assert(w@ =~= seq![
        MsrWrite { msr: IA32_PERFEVTSEL0, value: 0 },
        MsrWrite { msr: (IA32_PERFEVTSEL0 + 1) as u32, value: 0 },
    ]);
    w
}

} // verus!
