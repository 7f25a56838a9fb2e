//! NVIDIA GPU drivers: Ampere, Turing, and a CUDA-based driver for the
//! other cards.

use vstd::prelude::*;
use crate::kernel::drivers::gpu::GpuError;
use crate::kernel::drivers::gpu::pci::PciDevice;

pub mod ampere;
pub mod common;
pub mod cuda;
pub mod turing;

verus! {

/// The driver picked for an NVIDIA card.
pub enum NvidiaDriver {
    Ampere(ampere::AmpereGpu),
    Turing(turing::TuringGpu),
    Cuda(cuda::CudaDevice),
}

/// The architecture a device id belongs to: 0 for Ampere (0x2200 to
/// 0x24FF), 1 for Turing (0x1E00 to 0x1FFF), 2 for any other card.
pub open spec fn nvidia_family(device_id: u16) -> int {
    if 0x2200 <= device_id <= 0x24FF {
        0
    } else if 0x1E00 <= device_id <= 0x1FFF {
        1
    } else {
        2
    }
}

/// Create an appropriate NVIDIA GPU driver based on the device ID: the
/// Ampere driver for RTX 30 cards, the Turing driver for RTX 20 and GTX 16
/// cards, the CUDA driver for the others (refused where the vendor is not
/// NVIDIA).
pub fn create_driver(device: &PciDevice) -> (r: Result<NvidiaDriver, GpuError>)
    ensures
        nvidia_family(device.device_id) == 0 ==> (r matches Ok(NvidiaDriver::Ampere(g))
            && ampere::fresh_ampere(g, *device)),
        nvidia_family(device.device_id) == 1 ==> (r matches Ok(NvidiaDriver::Turing(g))
            && g.device_id == device.device_id as u32 && g.is_initialized),
        nvidia_family(device.device_id) == 2 && device.vendor_id != 0x10DE ==> r == Err::<NvidiaDriver, GpuError>(
            GpuError::InvalidDevice,
        ),
        nvidia_family(device.device_id) == 2 && device.vendor_id == 0x10DE ==> (r matches Ok(NvidiaDriver::Cuda(d))
            && d.is_initialized && d.id == device.device_id as usize),
{
    let device_id = device.device_id;
    if 0x2200 <= device_id && device_id <= 0x24FF {
        match ampere::create_driver(device) {
            Ok(g) => Ok(NvidiaDriver::Ampere(g)),
            Err(e) => Err(e),
        }
    } else if 0x1E00 <= device_id && device_id <= 0x1FFF {
        match turing::create_driver(device) {
            Ok(g) => Ok(NvidiaDriver::Turing(g)),
            Err(e) => Err(e),
        }
    } else {
        match cuda::create_driver(device) {
            Ok(d) => Ok(NvidiaDriver::Cuda(d)),
            Err(e) => Err(e),
        }
    }
}

} // verus!
