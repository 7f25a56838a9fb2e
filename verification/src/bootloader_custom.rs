//! The kernel's preferred boot environment: memory mapping, stack size,
//! framebuffer and command line.

use vstd::prelude::*;
use crate::text::string_from_str;

verus! {

/// A half-open range of physical addresses, `start..end`.
#[derive(Debug, Clone, Copy, PartialEq, Eq, Structural)]
pub struct AddressRange {
    pub start: u64,
    pub end: u64,
}

/// Represents desired configurations for the boot environment or early kernel.
#[derive(Debug, Clone)]
pub struct BootloaderConfig {
    /// The desired virtual address where physical memory should be mapped.
    pub physical_memory_offset: Option<u64>,
    /// Desired size for the kernel's initial stack.
    pub kernel_stack_size: usize,
    /// Whether the first megabyte of physical memory is identity mapped.
    pub identity_map_base_memory: bool,
    /// Physical memory regions to keep out of the usable map.
    pub excluded_memory_regions: Vec<AddressRange>,
    /// Preferred framebuffer width, if the kernel has a preference.
    pub preferred_framebuffer_width: Option<u32>,
    /// Preferred framebuffer height.
    pub preferred_framebuffer_height: Option<u32>,
    /// Preferred framebuffer bits per pixel (e.g., 32).
    pub preferred_framebuffer_bpp: Option<u8>,
    /// A command line string the kernel might want to parse.
    pub kernel_command_line: Option<String>,
    /// Whether the kernel requires ACPI tables.
    pub acpi_required: bool,
    /// Whether the kernel means to use several processors.
    pub smp_enabled_preference: bool,
    /// Desired logging level for the kernel itself.
    pub kernel_log_level: Option<String>,
}

/// The excluded regions of the preferred configuration: the first page,
/// VGA memory, the BIOS areas, the early kernel area and one page at 4 MiB.
pub open spec fn preferred_exclusions() -> Seq<AddressRange> {
    seq![
        AddressRange { start: 0x400000, end: 0x401000 },
        AddressRange { start: 0x0, end: 0x1000 },
        AddressRange { start: 0xA0000, end: 0xC0000 },
        AddressRange { start: 0xE0000, end: 0xF0000 },
        AddressRange { start: 0xF0000, end: 0x100000 },
        AddressRange { start: 0x100000, end: 0x200000 },
    ]
}

/// `c` is the kernel's preferred configuration.
pub open spec fn is_preferred_config(c: BootloaderConfig) -> bool {
    &&& c.physical_memory_offset == Some(0xFFFF_8000_0000_0000u64)
    &&& c.kernel_stack_size == 400 * 1024
    &&& c.identity_map_base_memory
    &&& c.excluded_memory_regions@ == preferred_exclusions()
    &&& c.preferred_framebuffer_width == Some(1920u32)
    &&& c.preferred_framebuffer_height == Some(1080u32)
    &&& c.preferred_framebuffer_bpp == Some(32u8)
    &&& c.kernel_command_line matches Some(s) && s@ == "fluxgrid.debug=1 fluxgrid.novesa=true"@
    &&& c.acpi_required
    &&& c.smp_enabled_preference
    &&& c.kernel_log_level matches Some(l) && l@ == "INFO"@
}

/// The kernel's preferred boot configuration.
pub fn get_bootloader_config() -> (c: BootloaderConfig)
    ensures
        is_preferred_config(c),
{
    let regions = vec![
        AddressRange { start: 0x400000, end: 0x401000 },
        AddressRange { start: 0x0, end: 0x1000 },
        AddressRange { start: 0xA0000, end: 0xC0000 },
        AddressRange { start: 0xE0000, end: 0xF0000 },
        AddressRange { start: 0xF0000, end: 0x100000 },
        AddressRange { start: 0x100000, end: 0x200000 },
    ];
    assert(regions@ =~= preferred_exclusions());
    BootloaderConfig {
        physical_memory_offset: Some(0xFFFF_8000_0000_0000),
        kernel_stack_size: 400 * 1024,
        identity_map_base_memory: true,
        excluded_memory_regions: regions,
        preferred_framebuffer_width: Some(1920),
        preferred_framebuffer_height: Some(1080),
        preferred_framebuffer_bpp: Some(32),
        kernel_command_line: Some(string_from_str("fluxgrid.debug=1 fluxgrid.novesa=true")),
        acpi_required: true,
        smp_enabled_preference: true,
        kernel_log_level: Some(string_from_str("INFO")),
    }
}

impl BootloaderConfig {
    pub fn new() -> (c: BootloaderConfig)
        ensures
            is_preferred_config(c),
    {
        get_bootloader_config()
    }
}

} // verus!
