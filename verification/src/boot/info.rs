//! The memory map that the boot stage describes.

use vstd::prelude::*;

verus! {

/// The kinds of physical memory region in a boot memory map.
#[derive(Debug, Clone, Copy, PartialEq, Eq, Structural)]
pub enum MemoryRegionType {
    Usable,
    Reserved,
    AcpiReclaimable,
    AcpiNvs,
    BadMemory,
    Kernel,
    Bootloader,
    Framebuffer,
    Mmio,
    Unknown,
}

/// The code that the boot protocol gives each kind of region.
pub open spec fn region_code(t: MemoryRegionType) -> u32 {
    match t {
        MemoryRegionType::Usable => 1,
        MemoryRegionType::Reserved => 2,
        MemoryRegionType::AcpiReclaimable => 3,
        MemoryRegionType::AcpiNvs => 4,
        MemoryRegionType::BadMemory => 5,
        MemoryRegionType::Kernel => 6,
        MemoryRegionType::Bootloader => 7,
        MemoryRegionType::Framebuffer => 8,
        MemoryRegionType::Mmio => 9,
        MemoryRegionType::Unknown => 0xFFFF_FFFF,
    }
}

impl MemoryRegionType {
    /// The region kind's protocol code.
    pub fn code(&self) -> (c: u32)
        ensures
            c == region_code(*self),
    {
        match self {
            MemoryRegionType::Usable => 1,
            MemoryRegionType::Reserved => 2,
            MemoryRegionType::AcpiReclaimable => 3,
            MemoryRegionType::AcpiNvs => 4,
            MemoryRegionType::BadMemory => 5,
            MemoryRegionType::Kernel => 6,
            MemoryRegionType::Bootloader => 7,
            MemoryRegionType::Framebuffer => 8,
            MemoryRegionType::Mmio => 9,
            MemoryRegionType::Unknown => 0xFFFF_FFFF,
        }
    }
}

} // verus!
