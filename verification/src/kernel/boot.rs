//! The boot sequence: its progress, its configuration, and the display
//! stage that checks the graphics hardware against the system's needs.

use vstd::prelude::*;
use crate::kernel::drivers::hdmi::{
    hdmi_meets, init_outcome, primary_of, probe_gpus, GamingRequirements, HdmiDriver, HdmiResolution, HdmiState,
    HostProbe,
};

verus! {

/// Boot status tracking
#[derive(Debug, Clone, Copy, PartialEq, Eq, Structural)]
pub enum BootStatus {
    NotStarted,
    CPUInitializing,
    MemoryInitializing,
    DisplayInitializing,
    StorageInitializing,
    InputInitializing,
    NetworkInitializing,
    SoundInitializing,
    FilesystemInitializing,
    PowerInitializing,
    BootCompleted,
    Failed(u32),
}

/// Boot configuration parameters
pub struct BootConfig {
    /// Memory map information
    pub memory_map: Option<&'static [u8]>,
    /// Command line arguments
    pub cmdline: Option<&'static str>,
    /// Initial display width
    pub display_width: Option<u32>,
    /// Initial display height
    pub display_height: Option<u32>,
    /// Initial display refresh rate
    pub refresh_rate: Option<u32>,
    /// The physical memory offset that the boot information carries, if
    /// boot information was handed over.
    pub boot_info: Option<Option<u64>>,
}

impl Default for BootConfig {
    fn default() -> (c: Self)
        ensures
            c.memory_map is None,
            c.cmdline is None,
            c.display_width == Some(1920u32),
            c.display_height == Some(1080u32),
            c.refresh_rate == Some(60u32),
            c.boot_info is None,
    {
        Self {
            memory_map: None,
            cmdline: None,
            display_width: Some(1920),
            display_height: Some(1080),
            refresh_rate: Some(60),
            boot_info: None,
        }
    }
}

/// Where the boot sequence stands.
pub struct BootState {
    status: BootStatus,
}

impl BootState {
    pub closed spec fn status(&self) -> BootStatus {
        self.status
    }

    /// A boot sequence that has not started.
    pub fn new() -> (s: Self)
        ensures
            s.status() == BootStatus::NotStarted,
    {
        BootState { status: BootStatus::NotStarted }
    }
}

/// Get current boot status
pub fn get_boot_status(state: &BootState) -> (s: BootStatus)
    ensures
        s == state.status(),
{
    state.status
}

/// Set boot status
pub fn set_boot_status(state: &mut BootState, status: BootStatus)
    ensures
        final(state).status() == status,
{
    state.status = status;
}

/// What the display stage asks of the graphics hardware: 512 MB of video
/// memory, OpenGL, and a 1280x720 display at 60 Hz.
pub open spec fn boot_requirements() -> GamingRequirements {
    GamingRequirements {
        min_vram_mb: 512,
        requires_vulkan: false,
        requires_opengl: true,
        requires_raytracing: false,
        min_width: 1280,
        min_height: 720,
        min_refresh_rate: 60,
    }
}

/// The requested display mode, where the configuration names all of it.
pub open spec fn requested_mode(config: BootConfig) -> Option<HdmiResolution> {
    match (config.display_width, config.display_height, config.refresh_rate) {
        (Some(w), Some(h), Some(r)) => Some(HdmiResolution { width: w, height: h, refresh_rate: r }),
        _ => None,
    }
}

/// What the display stage returns: the HDMI driver is initialised at
/// 1920x1080, then switched to the requested mode, the hardware detected,
/// and the requirements checked.
pub open spec fn display_init_result(before: HdmiState, config: BootConfig, probe: HostProbe) -> Result<(), &'static str> {
    if before.initialized {
        Err("HDMI driver already initialized")
    } else if requested_mode(config) is Some {
        Err("HDMI driver already initialized")
    } else if probe_gpus(probe).len() == 0 {
        Err("No graphics hardware detected")
    } else if !hdmi_meets(Some(probe_gpus(probe)[0]), boot_requirements()) {
        Err("System does not meet minimum graphics requirements")
    } else {
        Ok(())
    }
}

/// Initialize the display subsystem of a booting system.
pub fn display_init(hdmi: &mut HdmiDriver, config: &BootConfig, probe: &HostProbe) -> (r: Result<(), &'static str>)
    requires
        old(hdmi).wf(),
        requested_mode(*config) matches Some(m) ==> m.width * m.height * 4 <= usize::MAX,
    ensures
        final(hdmi).wf(),
        r == display_init_result(old(hdmi)@, *config, *probe),
{
    match hdmi.init() {
        Ok(()) => {},
        Err(e) => {
            return Err(e);
        },
    }
    match (config.display_width, config.display_height, config.refresh_rate) {
        (Some(width), Some(height), Some(refresh)) => {
            let resolution = HdmiResolution { width, height, refresh_rate: refresh };
            match hdmi.init_with_resolution(resolution) {
                Ok(()) => {},
                Err(e) => {
                    return Err(e);
                },
            }
        },
        _ => {},
    }
    match hdmi.detect_graphics_hardware(probe) {
        Ok(()) => {},
        Err(e) => {
            return Err(e);
        },
    }
    let requirements = GamingRequirements {
        min_vram_mb: 512,
        requires_vulkan: false,
        requires_opengl: true,
        requires_raytracing: false,
        min_width: 1280,
        min_height: 720,
        min_refresh_rate: 60,
    };
    if !hdmi.meets_gaming_requirements(&requirements) {
        return Err("System does not meet minimum graphics requirements");
    }
    Ok(())
}

/// The display stage of a boot with a full display mode configured (as the
/// default configuration has) always fails: the HDMI driver is already
/// initialised when the mode is applied.
pub proof fn lemma_configured_display_init_fails(before: HdmiState, config: BootConfig, probe: HostProbe)
    requires
        requested_mode(config) is Some,
    ensures
        display_init_result(before, config, probe) == Err::<(), &'static str>("HDMI driver already initialized"),
{
}

/// A stage of the boot sequence, in the order the sequence runs them.
#[derive(Debug, Clone, Copy, PartialEq, Eq, Structural)]
pub enum BootStage {
    Cpu,
    Memory,
    Display,
    Storage,
    Input,
    Network,
    Sound,
    Filesystem,
    Power,
    Interrupts,
}

/// What the boot sequence asks of its driver next.
#[derive(Debug, Clone, Copy)]
pub enum BootAction {
    /// Run this stage and report how it went.
    Run(BootStage),
    /// The boot failed with this message.
    Fail(&'static str),
    /// The boot is complete.
    Complete,
}

/// The stage after `s`, if any.
pub open spec fn stage_after(s: BootStage) -> Option<BootStage> {
    match s {
        BootStage::Cpu => Some(BootStage::Memory),
        BootStage::Memory => Some(BootStage::Display),
        BootStage::Display => Some(BootStage::Storage),
        BootStage::Storage => Some(BootStage::Input),
        BootStage::Input => Some(BootStage::Network),
        BootStage::Network => Some(BootStage::Sound),
        BootStage::Sound => Some(BootStage::Filesystem),
        BootStage::Filesystem => Some(BootStage::Power),
        BootStage::Power => Some(BootStage::Interrupts),
        BootStage::Interrupts => None,
    }
}

/// The status a stage announces when it starts (the interrupts announce
/// none).
pub open spec fn stage_status(s: BootStage) -> Option<BootStatus> {
    match s {
        BootStage::Cpu => Some(BootStatus::CPUInitializing),
        BootStage::Memory => Some(BootStatus::MemoryInitializing),
        BootStage::Display => Some(BootStatus::DisplayInitializing),
        BootStage::Storage => Some(BootStatus::StorageInitializing),
        BootStage::Input => Some(BootStatus::InputInitializing),
        BootStage::Network => Some(BootStatus::NetworkInitializing),
        BootStage::Sound => Some(BootStatus::SoundInitializing),
        BootStage::Filesystem => Some(BootStatus::FilesystemInitializing),
        BootStage::Power => Some(BootStatus::PowerInitializing),
        BootStage::Interrupts => None,
    }
}

fn next_stage(s: BootStage) -> (r: Option<BootStage>)
    ensures
        r == stage_after(s),
{
    match s {
        BootStage::Cpu => Some(BootStage::Memory),
        BootStage::Memory => Some(BootStage::Display),
        BootStage::Display => Some(BootStage::Storage),
        BootStage::Storage => Some(BootStage::Input),
        BootStage::Input => Some(BootStage::Network),
        BootStage::Network => Some(BootStage::Sound),
        BootStage::Sound => Some(BootStage::Filesystem),
        BootStage::Filesystem => Some(BootStage::Power),
        BootStage::Power => Some(BootStage::Interrupts),
        BootStage::Interrupts => None,
    }
}

fn status_of(s: BootStage) -> (r: Option<BootStatus>)
    ensures
        r == stage_status(s),
{
    match s {
        BootStage::Cpu => Some(BootStatus::CPUInitializing),
        BootStage::Memory => Some(BootStatus::MemoryInitializing),
        BootStage::Display => Some(BootStatus::DisplayInitializing),
        BootStage::Storage => Some(BootStatus::StorageInitializing),
        BootStage::Input => Some(BootStatus::InputInitializing),
        BootStage::Network => Some(BootStatus::NetworkInitializing),
        BootStage::Sound => Some(BootStatus::SoundInitializing),
        BootStage::Filesystem => Some(BootStatus::FilesystemInitializing),
        BootStage::Power => Some(BootStatus::PowerInitializing),
        BootStage::Interrupts => None,
    }
}

/// Starting stage `s`: its status is announced; the memory stage needs the
/// boot information, and fails without it.
pub open spec fn enter_stage(status: BootStatus, config: BootConfig, s: BootStage) -> (BootStatus, BootAction) {
    let st = match stage_status(s) {
        Some(t) => t,
        None => status,
    };
    if s == BootStage::Memory && config.boot_info is None {
        (st, BootAction::Fail("No boot information available for memory initialization"))
    } else {
        (st, BootAction::Run(s))
    }
}

/// After stage `done` reported `outcome`: a failure ends the boot with its
/// message; otherwise the next stage starts, and after the last one the
/// boot is complete.
pub open spec fn boot_step(status: BootStatus, config: BootConfig, done: BootStage, outcome: Result<(), &'static str>) -> (
    BootStatus,
    BootAction,
) {
    match outcome {
        Err(e) => (status, BootAction::Fail(e)),
        Ok(()) => match stage_after(done) {
            Some(n) => enter_stage(status, config, n),
            None => (BootStatus::BootCompleted, BootAction::Complete),
        },
    }
}

fn enter(state: &mut BootState, config: &BootConfig, s: BootStage) -> (a: BootAction)
    ensures
        (final(state).status(), a) == enter_stage(old(state).status(), *config, s),
{
    if let Some(t) = status_of(s) {
        set_boot_status(state, t);
    }
    match s {
        BootStage::Memory => {
            if config.boot_info.is_none() {
                return BootAction::Fail("No boot information available for memory initialization");
            }
        },
        _ => {},
    }
    BootAction::Run(s)
}

/// Start the boot sequence: the status goes back to not started, then the
/// CPU stage starts.
pub fn internal_init(state: &mut BootState, config: &BootConfig) -> (a: BootAction)
    ensures
        final(state).status() == BootStatus::CPUInitializing,
        a == BootAction::Run(BootStage::Cpu),
{
    set_boot_status(state, BootStatus::NotStarted);
    enter(state, config, BootStage::Cpu)
}

/// Go on once stage `done` reported `outcome` (see `boot_step`).
pub fn boot_advance(state: &mut BootState, config: &BootConfig, done: BootStage, outcome: Result<(), &'static str>) -> (a:
    BootAction)
    ensures
        (final(state).status(), a) == boot_step(old(state).status(), *config, done, outcome),
{
    match outcome {
        Err(e) => BootAction::Fail(e),
        Ok(()) => match next_stage(done) {
            Some(n) => enter(state, config, n),
            None => {
                set_boot_status(state, BootStatus::BootCompleted);
                BootAction::Complete
            },
        },
    }
}

/// The boot sequence where every stage succeeds, from the stage after
/// `done`: the last status reached and the final action.
pub open spec fn run_from(status: BootStatus, config: BootConfig, done: BootStage) -> (BootStatus, BootAction)
    decreases 10 - stage_rank(done),
{
    let (st, a) = boot_step(status, config, done, Ok(()));
    match a {
        BootAction::Run(n) => if stage_rank(n) > stage_rank(done) {
            run_from(st, config, n)
        } else {
            (st, a)
        },
        _ => (st, a),
    }
}

/// The position of a stage in the sequence.
pub open spec fn stage_rank(s: BootStage) -> int {
    match s {
        BootStage::Cpu => 0,
        BootStage::Memory => 1,
        BootStage::Display => 2,
        BootStage::Storage => 3,
        BootStage::Input => 4,
        BootStage::Network => 5,
        BootStage::Sound => 6,
        BootStage::Filesystem => 7,
        BootStage::Power => 8,
        BootStage::Interrupts => 9,
    }
}

/// Where every stage succeeds, the boot completes exactly when the
/// configuration carries boot information; without it, it stops at the
/// memory stage.
pub proof fn lemma_boot_completes(config: BootConfig)
    ensures
        config.boot_info is Some ==> run_from(BootStatus::CPUInitializing, config, BootStage::Cpu) == (
            BootStatus::BootCompleted,
            BootAction::Complete,
        ),
        config.boot_info is None ==> run_from(BootStatus::CPUInitializing, config, BootStage::Cpu) == (
            BootStatus::MemoryInitializing,
            BootAction::Fail("No boot information available for memory initialization"),
        ),
{
    reveal_with_fuel(run_from, 11);
}

} // verus!
