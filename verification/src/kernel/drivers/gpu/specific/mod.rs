//! The interface that GPU device drivers present to the subsystem.

use vstd::prelude::*;
use super::{GpuInfo, GpuError};

pub mod amd;
pub mod intel;
pub mod nvidia;

verus! {

/// A rectangle whose edges stay within `i32`: neither corner coordinate is
/// `i32::MIN` and the far edges do not pass `i32::MAX`.
pub open spec fn rect_in_range(x: i32, y: i32, width: u32, height: u32) -> bool {
    &&& x != i32::MIN && y != i32::MIN
    &&& width <= i32::MAX && height <= i32::MAX
    &&& x + width <= i32::MAX && y + height <= i32::MAX
}

/// |a|
pub open spec fn iabs(a: int) -> int {
    if a < 0 { -a } else { a }
}

/// A line whose sides and error term stay within `i32`.
pub open spec fn line_in_range(x1: i32, y1: i32, x2: i32, y2: i32) -> bool {
    &&& i32::MIN < x2 - x1 <= i32::MAX
    &&& i32::MIN < y2 - y1 <= i32::MAX
    &&& iabs(x2 - x1) + iabs(y2 - y1) <= i32::MAX
}

/// Interface for GPU device drivers
pub trait GpuDevice {
    /// The driver's own invariant.
    spec fn well_formed(&self) -> bool;

    /// The driver's arithmetic on a texture of this size and format stays
    /// in range.
    spec fn texture_defined(&self, width: u32, height: u32, format: u32) -> bool;

    /// The driver's arithmetic on a framebuffer of this size stays in range.
    spec fn framebuffer_defined(&self, width: u32, height: u32) -> bool;

    /// Get information about the GPU
    fn get_info(&self) -> Result<GpuInfo, GpuError>
        requires
            self.well_formed(),
    ;

    /// Get the framebuffer address
    fn get_framebuffer(&mut self, width: u32, height: u32) -> (r: Result<usize, GpuError>)
        requires
            old(self).well_formed(),
            old(self).framebuffer_defined(width, height),
        ensures
            final(self).well_formed(),
    ;

    /// Get the framebuffer pitch
    fn get_framebuffer_pitch(&self) -> Result<u32, GpuError>
        requires
            self.well_formed(),
    ;

    /// Clear the screen with the specified color
    fn clear(&mut self, color: u32) -> (r: Result<(), GpuError>)
        requires
            old(self).well_formed(),
        ensures
            final(self).well_formed(),
    ;

    /// Draw a filled rectangle
    fn fill_rect(&mut self, x: i32, y: i32, width: u32, height: u32, color: u32) -> (r: Result<(), GpuError>)
        requires
            old(self).well_formed(),
            rect_in_range(x, y, width, height),
        ensures
            final(self).well_formed(),
    ;

    /// Draw a line
    fn draw_line(&mut self, x1: i32, y1: i32, x2: i32, y2: i32, color: u32) -> (r: Result<(), GpuError>)
        requires
            old(self).well_formed(),
            line_in_range(x1, y1, x2, y2),
        ensures
            final(self).well_formed(),
    ;

    /// Create a texture
    fn create_texture(&mut self, width: u32, height: u32, format: u32, data: &[u8]) -> (r: Result<u32, GpuError>)
        requires
            old(self).well_formed(),
            old(self).texture_defined(width, height, format),
        ensures
            final(self).well_formed(),
    ;

    /// Destroy a texture
    fn destroy_texture(&mut self, texture_id: u32) -> (r: Result<(), GpuError>)
        requires
            old(self).well_formed(),
        ensures
            final(self).well_formed(),
    ;

    /// Get texture data
    fn get_texture_data(&self, texture_id: u32) -> Result<&[u8], GpuError>
        requires
            self.well_formed(),
    ;

    /// Draw a texture
    fn draw_texture(&mut self, texture_id: u32, x: i32, y: i32, width: u32, height: u32) -> (r: Result<(), GpuError>)
        requires
            old(self).well_formed(),
        ensures
            final(self).well_formed(),
    ;

    /// Set clipping rectangle
    fn set_clip_rect(&mut self, x: i32, y: i32, width: u32, height: u32) -> (r: Result<(), GpuError>)
        requires
            old(self).well_formed(),
        ensures
            final(self).well_formed(),
    ;

    /// Clear clipping rectangle
    fn clear_clip_rect(&mut self) -> (r: Result<(), GpuError>)
        requires
            old(self).well_formed(),
        ensures
            final(self).well_formed(),
    ;

    /// Set blend mode
    fn set_blend_mode(&mut self, mode: u32) -> (r: Result<(), GpuError>)
        requires
            old(self).well_formed(),
        ensures
            final(self).well_formed(),
    ;

    /// Present the frame to the screen
    fn present(&mut self) -> (r: Result<(), GpuError>)
        requires
            old(self).well_formed(),
        ensures
            final(self).well_formed(),
    ;

    /// Shut down the GPU
    fn shutdown(&mut self) -> (r: Result<(), GpuError>)
        requires
            old(self).well_formed(),
        ensures
            final(self).well_formed(),
    ;
}

} // verus!
