//! Common utilities for Intel GPU drivers: register access through the
//! device's MMIO window, and the memory helpers shared by all generations.

use vstd::prelude::*;
use crate::kernel::drivers::gpu::GpuError;
use crate::kernel::drivers::gpu::specific::amd::common::MmioWindow;

verus! {

/// Map memory-mapped I/O region: nothing to set up yet.
pub fn map_mmio(physical_address: usize, size: usize) -> (r: Result<(), GpuError>)
    ensures
        r is Ok,
{
    Ok(())
}

/// Unmap memory-mapped I/O region: nothing to release yet.
pub fn unmap_mmio(physical_address: usize, size: usize) -> (r: Result<(), GpuError>)
    ensures
        r is Ok,
{
    Ok(())
}

/// Read a 32-bit register of the window.
pub fn read_reg32(window: &MmioWindow, offset: usize) -> (v: u32)
    ensures
        v == window.reg(offset),
{
    window.read(offset)
}

/// Write a 32-bit register of the window.
pub fn write_reg32(window: &mut MmioWindow, offset: usize, value: u32)
    ensures
        final(window).regs() == old(window).regs().insert(offset, value),
{
    window.write(offset, value)
}

/// Wait for a register bit to be set or cleared: taken as done at once.
pub fn wait_for_reg32(window: &MmioWindow, offset: usize, mask: u32, value: u32, timeout_ms: u32) -> (r: Result<
    (),
    GpuError,
>)
    ensures
        r is Ok,
{
    Ok(())
}

/// Convert a linear address to a tiled address: tiling is not applied
/// yet, so the address is unchanged.
pub fn linear_to_tiled(linear_addr: usize, width: u32, height: u32, bpp: u8) -> (a: usize)
    ensures
        a == linear_addr,
{
    linear_addr
}

} // verus!
