//! Common structures and helpers of the NVIDIA drivers. Device memory and
//! register windows are not reached yet: each helper succeeds and hands
//! back the null address.

use vstd::prelude::*;

verus! {

/// Represents a generic NVIDIA GPU device
pub struct NvidiaGpuDevice {
    pub name: String,
    /// in bytes
    pub memory_size: usize,
    /// in MHz
    pub core_clock: u32,
    /// in MHz
    pub memory_clock: u32,
}

/// Represents the error types that can occur in NVIDIA driver operations
#[derive(Debug, Clone, Copy, PartialEq, Eq)]
pub enum NvidiaError {
    InitializationFailed,
    MemoryAllocationFailed,
    UnsupportedOperation,
}

/// Initializes the NVIDIA GPU device: nothing to set up yet.
pub fn initialize_device(device: &NvidiaGpuDevice) -> (r: Result<(), NvidiaError>)
    ensures
        r is Ok,
{
    Ok(())
}

/// Allocates memory on the NVIDIA GPU: the null address.
pub fn allocate_memory(size: usize) -> (r: Result<usize, NvidiaError>)
    ensures
        r == Ok::<usize, NvidiaError>(0),
{
    Ok(0)
}

/// Frees memory allocated on the NVIDIA GPU: nothing to release yet.
pub fn free_memory(address: usize) {
}

/// Unmap a register window: nothing to release yet.
pub fn unmap_mmio(physical_address: usize, size: usize) -> (r: Result<(), NvidiaError>)
    ensures
        r is Ok,
{
    Ok(())
}

/// Map a register window: the null address.
pub fn map_mmio(physical_address: usize, size: usize) -> (r: Result<usize, NvidiaError>)
    ensures
        r == Ok::<usize, NvidiaError>(0),
{
    Ok(0)
}

} // verus!
