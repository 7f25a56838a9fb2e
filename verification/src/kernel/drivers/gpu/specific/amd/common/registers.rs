//! Register offsets for AMD GPUs, within the MMIO window.

use vstd::prelude::*;

verus! {

pub const MMIO_MC_INDEX: usize = 0x00;
pub const MMIO_MC_DATA: usize = 0x04;
pub const MMIO_CRTC_CONTROL: usize = 0x6000;
pub const MMIO_CRTC_STATUS: usize = 0x6004;
pub const MMIO_CRTC_BASE: usize = 0x6008;
pub const MMIO_CRTC_PITCH: usize = 0x600C;
pub const MMIO_CRTC_SIZE: usize = 0x6010;
pub const MMIO_DISPLAY_CONTROL: usize = 0x6100;
pub const MMIO_DISPLAY_STATUS: usize = 0x6104;

// Power management registers
pub const MMIO_POWER_STATE: usize = 0x7000;
pub const MMIO_POWER_CONTROL: usize = 0x7004;
pub const MMIO_CLOCK_CONTROL: usize = 0x7008;

// Memory controller registers
pub const MMIO_MEM_CONFIG: usize = 0x9000;
pub const MMIO_MEM_CONTROL: usize = 0x9004;
pub const MMIO_MEM_STATUS: usize = 0x9008;

// 2D engine registers
pub const MMIO_2D_CONTROL: usize = 0xA000;
pub const MMIO_2D_SRC_ADDR: usize = 0xA004;
pub const MMIO_2D_SRC_PITCH: usize = 0xA008;
pub const MMIO_2D_DST_ADDR: usize = 0xA00C;
pub const MMIO_2D_DST_PITCH: usize = 0xA010;
pub const MMIO_2D_SIZE: usize = 0xA014;
pub const MMIO_2D_COLOR: usize = 0xA018;

// 3D engine registers
pub const MMIO_3D_CONTROL: usize = 0xB000;
pub const MMIO_3D_STATUS: usize = 0xB004;

} // verus!
