//! GPU hardware detection: looks for a discrete GPU on the PCI bus and
//! falls back to the VESA framebuffer.

use vstd::prelude::*;
use super::GpuError;
use super::pci::{self, enumerate_gpus, lemma_enumeration_finds_three};
use super::specific::nvidia::{self, NvidiaDriver};
use super::specific::nvidia::ampere::fresh_ampere;
use super::vesa::{self, VesaDriver};

verus! {

/// The driver that detection picks.
pub enum DetectedGpu {
    Nvidia(NvidiaDriver),
    Vesa(VesaDriver),
}

/// Detect available GPU hardware and return the most suitable driver: the
/// first display controller on the PCI bus whose vendor driver accepts it,
/// else the VESA framebuffer. The bus holds an NVIDIA RTX 3080 first
/// (`lemma_enumeration_finds_three`), which the Ampere driver takes.
/// AMD (0x1002) and Intel (0x8086) controllers have no driver factory here
/// and are passed over; none is reached on this bus.
pub fn detect_gpu() -> (r: Result<DetectedGpu, GpuError>)
    ensures
        r matches Ok(DetectedGpu::Nvidia(NvidiaDriver::Ampere(g))) && fresh_ampere(g, pci::simulated_gpus()[0]),
{
    match enumerate_gpus() {
        Ok(devices) => {
            proof {
                lemma_enumeration_finds_three();
            }
            let mut k: usize = 0;
            while k < devices.len()
                invariant
                    k == 0,
                    devices@ == pci::scan_buses(256),
                    pci::scan_buses(256) == pci::simulated_gpus(),
                    pci::simulated_gpus()[0].vendor_id == 0x10DE && pci::simulated_gpus()[0].device_id == 0x2206,
                decreases devices@.len() - k,
            {
                let vendor = devices[k].vendor_id;
                if vendor == 0x10DE {
                    match nvidia::create_driver(&devices[k]) {
                        Ok(driver) => {
                            return Ok(DetectedGpu::Nvidia(driver));
                        },
                        Err(_) => {},
                    }
                }
                assert(false);
                k += 1;
            }
        },
        Err(_) => {},
    }
    match vesa::create_driver() {
        Ok(driver) => Ok(DetectedGpu::Vesa(driver)),
        Err(_) => Err(GpuError::NoDevice),
    }
}

} // verus!
