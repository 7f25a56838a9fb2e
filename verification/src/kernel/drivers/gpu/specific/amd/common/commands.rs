//! Command and control flags for AMD GPU operations.

use vstd::prelude::*;

verus! {

// 2D engine command flags
pub const CMD_2D_FILL_RECT: u32 = 0x00000001;
pub const CMD_2D_COPY_RECT: u32 = 0x00000002;
pub const CMD_2D_BLEND_RECT: u32 = 0x00000003;
pub const CMD_2D_LINE: u32 = 0x00000004;

// 3D engine command flags
pub const CMD_3D_CLEAR: u32 = 0x00000001;
pub const CMD_3D_DRAW_TRIANGLES: u32 = 0x00000002;
pub const CMD_3D_DRAW_INDEXED: u32 = 0x00000003;

// Display control flags
pub const DISPLAY_ENABLE: u32 = 0x00000001;
pub const DISPLAY_VSYNC: u32 = 0x00000002;
pub const DISPLAY_HSYNC: u32 = 0x00000004;

// Power control flags
pub const POWER_NORMAL: u32 = 0x00000000;
pub const POWER_REDUCED: u32 = 0x00000001;
pub const POWER_MINIMUM: u32 = 0x00000002;
pub const POWER_STANDBY: u32 = 0x00000003;

} // verus!
