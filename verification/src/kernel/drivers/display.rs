//! Display state: the current mode, colour depth and geometry, and the
//! checks that drawing operations make against it.

use vstd::prelude::*;
use crate::kernel::drivers::hdmi::{self, HdmiDriver, set_pixel_outcome};
use crate::kernel::drivers::displayport::{self, DisplayPortDriver, dp_pixel_outcome};

verus! {

/// Display modes supported by the driver
#[derive(Debug, Clone, Copy, PartialEq, Eq, Structural)]
pub enum DisplayMode {
    Text80x25,
    Vesa640x480,
    Vesa800x600,
    Vesa1024x768,
    Vesa1280x1024,
    Vesa1920x1080,
    Vesa2560x1440,
    Vesa3840x2160,
    Vesa5120x2880,
    Custom(u32, u32),
}

/// Color depths supported by display modes
#[derive(Debug, Clone, Copy, PartialEq, Eq, Structural)]
pub enum ColorDepth {
    Bpp8,
    Bpp16,
    Bpp24,
    Bpp32,
}

/// Represents a pixel color in RGB format
#[derive(Debug, Clone, Copy, PartialEq, Eq, Structural)]
pub struct Color {
    pub r: u8,
    pub g: u8,
    pub b: u8,
    pub a: u8,
}

/// The sixteen-colour VGA palette entries that RGB colours are mapped to.
#[derive(Debug, Clone, Copy, PartialEq, Eq, Structural)]
pub enum VgaColor {
    Black,
    Red,
    Green,
    Brown,
    Blue,
    Magenta,
    Cyan,
    DarkGray,
    White,
    Gray,
}

/// The palette entry for RGB levels, each channel cut into thirds.
pub open spec fn vga_for_levels(r: u8, g: u8, b: u8) -> VgaColor {
    let (rl, gl, bl) = (r / 85, g / 85, b / 85);
    if rl == 0 && gl == 0 && bl == 0 {
        VgaColor::Black
    } else if rl == 2 && gl == 0 && bl == 0 {
        VgaColor::Red
    } else if rl == 0 && gl == 2 && bl == 0 {
        VgaColor::Green
    } else if rl == 2 && gl == 2 && bl == 0 {
        VgaColor::Brown
    } else if rl == 0 && gl == 0 && bl == 2 {
        VgaColor::Blue
    } else if rl == 2 && gl == 0 && bl == 2 {
        VgaColor::Magenta
    } else if rl == 0 && gl == 2 && bl == 2 {
        VgaColor::Cyan
    } else if rl == 1 && gl == 1 && bl == 1 {
        VgaColor::DarkGray
    } else if rl == 2 && gl == 2 && bl == 2 {
        VgaColor::White
    } else {
        VgaColor::Gray
    }
}

impl VgaColor {
    /// The closest palette entry for an RGB colour.
    pub fn new_rgb(r: u8, g: u8, b: u8) -> (c: Self)
        ensures
            c == vga_for_levels(r, g, b),
    {
        let r_level = r / 85;
        let g_level = g / 85;
        let b_level = b / 85;
        match (r_level, g_level, b_level) {
            (0, 0, 0) => VgaColor::Black,
            (2, 0, 0) => VgaColor::Red,
            (0, 2, 0) => VgaColor::Green,
            (2, 2, 0) => VgaColor::Brown,
            (0, 0, 2) => VgaColor::Blue,
            (2, 0, 2) => VgaColor::Magenta,
            (0, 2, 2) => VgaColor::Cyan,
            (1, 1, 1) => VgaColor::DarkGray,
            (2, 2, 2) => VgaColor::White,
            _ => VgaColor::Gray,
        }
    }
}

/// Display device information
#[derive(Debug, Clone, Copy, PartialEq, Eq, Structural)]
pub struct DisplayInfo {
    pub current_mode: DisplayMode,
    pub current_depth: ColorDepth,
    pub width: u32,
    pub height: u32,
    pub pitch: u32,
    pub framebuffer: u64,
    pub initialized: bool,
}

/// Bytes per pixel at a colour depth.
pub open spec fn depth_bytes(depth: ColorDepth) -> u32 {
    match depth {
        ColorDepth::Bpp8 => 1,
        ColorDepth::Bpp16 => 2,
        ColorDepth::Bpp24 => 3,
        ColorDepth::Bpp32 => 4,
    }
}

/// Width and height in pixels of a graphics mode.
pub open spec fn mode_size(mode: DisplayMode) -> (u32, u32) {
    match mode {
        DisplayMode::Text80x25 => (80, 25),
        DisplayMode::Vesa640x480 => (640, 480),
        DisplayMode::Vesa800x600 => (800, 600),
        DisplayMode::Vesa1024x768 => (1024, 768),
        DisplayMode::Vesa1280x1024 => (1280, 1024),
        DisplayMode::Vesa1920x1080 => (1920, 1080),
        DisplayMode::Vesa2560x1440 => (2560, 1440),
        DisplayMode::Vesa3840x2160 => (3840, 2160),
        DisplayMode::Vesa5120x2880 => (5120, 2880),
        DisplayMode::Custom(w, h) => (w, h),
    }
}

/// The display after a mode switch from `d`.
pub open spec fn switched(d: DisplayInfo, mode: DisplayMode, depth: ColorDepth) -> DisplayInfo {
    if mode == DisplayMode::Text80x25 {
        DisplayInfo {
            current_mode: mode,
            current_depth: ColorDepth::Bpp8,
            width: 80,
            height: 25,
            pitch: 160,
            framebuffer: 0xB8000,
            ..d
        }
    } else {
        let (w, h) = mode_size(mode);
        DisplayInfo {
            current_mode: mode,
            current_depth: depth,
            width: w,
            height: h,
            pitch: (w * depth_bytes(depth)) as u32,
            ..d
        }
    }
}

/// The VESA graphics modes, from the smallest to the largest.
pub open spec fn vesa_modes() -> Seq<DisplayMode> {
    seq![
        DisplayMode::Vesa640x480,
        DisplayMode::Vesa800x600,
        DisplayMode::Vesa1024x768,
        DisplayMode::Vesa1280x1024,
        DisplayMode::Vesa1920x1080,
        DisplayMode::Vesa2560x1440,
        DisplayMode::Vesa3840x2160,
        DisplayMode::Vesa5120x2880,
    ]
}

/// The aspect ratio (width part, height part) of each VESA mode, in the
/// order of `vesa_modes`: 4:3 up to 1024x768, 5:4 for 1280x1024, 16:9
/// from 1920x1080 on.
pub open spec fn vesa_aspects() -> Seq<(int, int)> {
    seq![(4, 3), (4, 3), (4, 3), (5, 4), (16, 9), (16, 9), (16, 9), (16, 9)]
}

/// Switching to a larger VESA mode gives a display both wider and taller.
pub proof fn lemma_vesa_modes_grow(d: DisplayInfo, depth: ColorDepth, i: int, j: int)
    requires
        0 <= i < j < vesa_modes().len(),
    ensures
        switched(d, vesa_modes()[i], depth).width < switched(d, vesa_modes()[j], depth).width,
        switched(d, vesa_modes()[i], depth).height < switched(d, vesa_modes()[j], depth).height,
{
}

/// After a switch to a VESA mode the display has the mode's aspect ratio,
/// the mode and depth asked for, and a pitch of one row of pixels.
pub proof fn lemma_vesa_mode_shape(d: DisplayInfo, depth: ColorDepth, i: int)
    requires
        0 <= i < vesa_modes().len(),
    ensures
        ({
            let s = switched(d, vesa_modes()[i], depth);
            &&& s.width * vesa_aspects()[i].1 == s.height * vesa_aspects()[i].0
            &&& s.current_mode == vesa_modes()[i]
            &&& s.current_depth == depth
            &&& s.pitch == s.width * depth_bytes(depth)
        }),
{
    let m = vesa_modes()[i];
    assert(m != DisplayMode::Text80x25);
    assert(0 < depth_bytes(depth) <= 4);
    assert(mode_size(m).0 <= 5120);
    assert(mode_size(m).0 * depth_bytes(depth) <= 5120 * 4) by (nonlinear_arith)
        requires
            mode_size(m).0 <= 5120,
            0 < depth_bytes(depth) <= 4,
    ;
    assert(i == 0 || i == 1 || i == 2 || i == 3 || i == 4 || i == 5 || i == 6 || i == 7);
    let sw = switched(d, m, depth);
    assert(sw.width == mode_size(m).0 && sw.height == mode_size(m).1);
    let asp = vesa_aspects()[i];
    if i <= 2 {
        assert(asp == (4int, 3int));
    } else if i == 3 {
        assert(asp == (5int, 4int));
    } else {
        assert(asp == (16int, 9int));
    }
    assert(sw.width * asp.1 == sw.height * asp.0);
    assert(sw.pitch == sw.width * depth_bytes(depth));
}

/// The VESA sizes come in doublings: 1280 is twice 640 wide, 3840x2160
/// is 1920x1080 doubled each way and 5120x2880 is 2560x1440 doubled.
pub proof fn lemma_vesa_doublings(d: DisplayInfo, depth: ColorDepth)
    ensures
        switched(d, DisplayMode::Vesa1280x1024, depth).width == 2 * switched(d, DisplayMode::Vesa640x480, depth).width,
        switched(d, DisplayMode::Vesa3840x2160, depth).width == 2 * switched(d, DisplayMode::Vesa1920x1080, depth).width,
        switched(d, DisplayMode::Vesa3840x2160, depth).height == 2 * switched(d, DisplayMode::Vesa1920x1080, depth).height,
        switched(d, DisplayMode::Vesa5120x2880, depth).width == 2 * switched(d, DisplayMode::Vesa2560x1440, depth).width,
        switched(d, DisplayMode::Vesa5120x2880, depth).height == 2 * switched(d, DisplayMode::Vesa2560x1440, depth).height,
{
}

/// A mode whose row pitch fits the 32-bit pitch field.
pub open spec fn pitch_fits(mode: DisplayMode, depth: ColorDepth) -> bool {
    mode_size(mode).0 * depth_bytes(depth) <= u32::MAX
}

/// Why drawing a pixel at (`x`, `y`) is refused, if it is.
pub open spec fn pixel_error(d: DisplayInfo, x: u32, y: u32) -> Option<&'static str> {
    if !d.initialized {
        Some("Display not initialized")
    } else if x >= d.width || y >= d.height {
        Some("Coordinates out of bounds")
    } else if d.current_mode == DisplayMode::Text80x25 {
        Some("Cannot draw pixels in text mode")
    } else {
        None
    }
}

impl Color {
    /// Opaque black.
    pub fn black() -> (c: Color)
        ensures
            c == (Color { r: 0, g: 0, b: 0, a: 255 }),
    {
        Color { r: 0, g: 0, b: 0, a: 255 }
    }

    /// Opaque white.
    pub fn white() -> (c: Color)
        ensures
            c == (Color { r: 255, g: 255, b: 255, a: 255 }),
    {
        Color { r: 255, g: 255, b: 255, a: 255 }
    }

    /// Opaque red.
    pub fn red() -> (c: Color)
        ensures
            c == (Color { r: 255, g: 0, b: 0, a: 255 }),
    {
        Color { r: 255, g: 0, b: 0, a: 255 }
    }

    /// Opaque green.
    pub fn green() -> (c: Color)
        ensures
            c == (Color { r: 0, g: 255, b: 0, a: 255 }),
    {
        Color { r: 0, g: 255, b: 0, a: 255 }
    }

    /// Opaque blue.
    pub fn blue() -> (c: Color)
        ensures
            c == (Color { r: 0, g: 0, b: 255, a: 255 }),
    {
        Color { r: 0, g: 0, b: 255, a: 255 }
    }


    /// Create a new color from RGB values
    pub fn new(r: u8, g: u8, b: u8) -> (c: Self)
        ensures
            c == (Color { r, g, b, a: 255 }),
    {
        Self { r, g, b, a: 255 }
    }

    /// Create a new color with alpha
    pub fn with_alpha(r: u8, g: u8, b: u8, a: u8) -> (c: Self)
        ensures
            c == (Color { r, g, b, a }),
    {
        Self { r, g, b, a }
    }

    /// Convert to packed 32-bit RGBA
    pub fn to_rgba32(&self) -> (v: u32)
        ensures
            v == self.r * 0x1000000 + self.g * 0x10000 + self.b * 0x100 + self.a,
    {
        let (r, g, b, a) = (self.r as u32, self.g as u32, self.b as u32, self.a as u32);
        assert((r << 24) | (g << 16) | (b << 8) | a == r * 0x1000000 + g * 0x10000 + b * 0x100 + a)
            by (bit_vector)
            requires
                r < 256,
                g < 256,
                b < 256,
                a < 256,
        ;
        (r << 24) | (g << 16) | (b << 8) | a
    }

    /// Convert to packed 24-bit RGB
    pub fn to_rgb24(&self) -> (v: u32)
        ensures
            v == self.r * 0x10000 + self.g * 0x100 + self.b,
    {
        let (r, g, b) = (self.r as u32, self.g as u32, self.b as u32);
        assert((r << 16) | (g << 8) | b == r * 0x10000 + g * 0x100 + b) by (bit_vector)
            requires
                r < 256,
                g < 256,
                b < 256,
        ;
        (r << 16) | (g << 8) | b
    }

    /// Convert to packed 16-bit RGB (5:6:5)
    pub fn to_rgb16(&self) -> (v: u16)
        ensures
            v == (self.r / 8) * 0x800 + (self.g / 4) * 0x20 + self.b / 8,
    {
        let (r, g, b) = (self.r as u16, self.g as u16, self.b as u16);
        assert(((r >> 3) << 11) | ((g >> 2) << 5) | (b >> 3) == (r / 8) * 0x800 + (g / 4) * 0x20 + b / 8)
            by (bit_vector)
            requires
                r < 256,
                g < 256,
                b < 256,
        ;
        ((r >> 3) << 11) | ((g >> 2) << 5) | (b >> 3)
    }
}

impl DisplayInfo {
    /// The state at power-on: VGA text mode, not yet initialised.
    pub fn new() -> (d: Self)
        ensures
            d == (DisplayInfo {
                current_mode: DisplayMode::Text80x25,
                current_depth: ColorDepth::Bpp8,
                width: 80,
                height: 25,
                pitch: 160,
                framebuffer: 0xB8000,
                initialized: false,
            }),
    {
        DisplayInfo {
            current_mode: DisplayMode::Text80x25,
            current_depth: ColorDepth::Bpp8,
            width: 80,
            height: 25,
            pitch: 160,
            framebuffer: 0xB8000,
            initialized: false,
        }
    }
}

/// Bytes per pixel at a colour depth.
fn bytes_per_pixel(depth: ColorDepth) -> (n: u32)
    ensures
        n == depth_bytes(depth),
{
    match depth {
        ColorDepth::Bpp8 => 1,
        ColorDepth::Bpp16 => 2,
        ColorDepth::Bpp24 => 3,
        ColorDepth::Bpp32 => 4,
    }
}

/// Initialize the display subsystem: a hosted system runs at 800x600 in
/// 32-bit colour. A display already initialised is left as it is.
pub fn init(display: &mut DisplayInfo) -> (r: Result<(), &'static str>)
    ensures
        r is Ok,
        old(display).initialized ==> *final(display) == *old(display),
        !old(display).initialized ==> *final(display) == (DisplayInfo {
            current_mode: DisplayMode::Vesa800x600,
            current_depth: ColorDepth::Bpp32,
            width: 800,
            height: 600,
            pitch: 3200,
            initialized: true,
            ..*old(display)
        }),
{
    if display.initialized {
        return Ok(());
    }
    display.current_mode = DisplayMode::Vesa800x600;
    display.current_depth = ColorDepth::Bpp32;
    display.width = 800;
    display.height = 600;
    display.pitch = 800 * 4;
    display.initialized = true;
    Ok(())
}

/// Set the display mode
pub fn set_mode(display: &mut DisplayInfo, mode: DisplayMode, depth: ColorDepth) -> (r: Result<(), &'static str>)
    requires
        pitch_fits(mode, depth),
    ensures
        !old(display).initialized ==> r == Err::<(), &'static str>("Display not initialized")
            && *final(display) == *old(display),
        old(display).initialized ==> r is Ok && *final(display) == switched(*old(display), mode, depth),
{
    if !display.initialized {
        return Err("Display not initialized");
    }
    match mode {
        DisplayMode::Text80x25 => {
            display.current_mode = mode;
            display.current_depth = ColorDepth::Bpp8;
            display.width = 80;
            display.height = 25;
            display.pitch = 160;
            display.framebuffer = 0xB8000;
        },
        DisplayMode::Vesa640x480 => {
            display.current_mode = mode;
            display.current_depth = depth;
            display.width = 640;
            display.height = 480;
            display.pitch = 640 * bytes_per_pixel(depth);
        },
        DisplayMode::Vesa800x600 => {
            display.current_mode = mode;
            display.current_depth = depth;
            display.width = 800;
            display.height = 600;
            display.pitch = 800 * bytes_per_pixel(depth);
        },
        DisplayMode::Vesa1024x768 => {
            display.current_mode = mode;
            display.current_depth = depth;
            display.width = 1024;
            display.height = 768;
            display.pitch = 1024 * bytes_per_pixel(depth);
        },
        DisplayMode::Vesa1280x1024 => {
            display.current_mode = mode;
            display.current_depth = depth;
            display.width = 1280;
            display.height = 1024;
            display.pitch = 1280 * bytes_per_pixel(depth);
        },
        DisplayMode::Vesa1920x1080 => {
            display.current_mode = mode;
            display.current_depth = depth;
            display.width = 1920;
            display.height = 1080;
            display.pitch = 1920 * bytes_per_pixel(depth);
        },
        DisplayMode::Vesa2560x1440 => {
            display.current_mode = mode;
            display.current_depth = depth;
            display.width = 2560;
            display.height = 1440;
            display.pitch = 2560 * bytes_per_pixel(depth);
        },
        DisplayMode::Vesa3840x2160 => {
            display.current_mode = mode;
            display.current_depth = depth;
            display.width = 3840;
            display.height = 2160;
            display.pitch = 3840 * bytes_per_pixel(depth);
        },
        DisplayMode::Vesa5120x2880 => {
            display.current_mode = mode;
            display.current_depth = depth;
            display.width = 5120;
            display.height = 2880;
            display.pitch = 5120 * bytes_per_pixel(depth);
        },
        DisplayMode::Custom(width, height) => {
            display.current_mode = mode;
            display.current_depth = depth;
            display.width = width;
            display.height = height;
            display.pitch = width * bytes_per_pixel(depth);
        },
    }
    Ok(())
}

/// Draws a pixel: checked against the display state, then written to the
/// HDMI output, or, where HDMI refuses it, to the DisplayPort output. On a
/// hosted system the write then succeeds whichever output took it.
pub fn draw_pixel(
    display: &DisplayInfo,
    hdmi_out: &mut HdmiDriver,
    dp_out: &mut DisplayPortDriver,
    x: u32,
    y: u32,
    color: Color,
) -> (r: Result<(), &'static str>)
    requires
        old(hdmi_out).wf(),
        old(dp_out).wf(),
        hdmi::offset_fits(old(hdmi_out)@.resolution, x, y),
        hdmi::offset_fits(old(dp_out)@.resolution, x, y),
    ensures
        final(hdmi_out).wf(),
        final(dp_out).wf(),
        match pixel_error(*display, x, y) {
            Some(e) => r == Err::<(), &'static str>(e) && final(hdmi_out)@ == old(hdmi_out)@ && final(dp_out)@
                == old(dp_out)@,
            None => r is Ok && exists|rh: Result<(), &'static str>|
                {
                    &&& #[trigger] set_pixel_outcome(
                        old(hdmi_out)@,
                        x,
                        y,
                        color.r,
                        color.g,
                        color.b,
                        color.a,
                        rh,
                        final(hdmi_out)@,
                        "HDMI driver not initialized",
                    )
                    &&& rh is Ok ==> final(dp_out)@ == old(dp_out)@
                    &&& rh is Err ==> exists|rd: Result<(), &'static str>|
                        #[trigger] dp_pixel_outcome(old(dp_out)@, x, y, color.r, color.g, color.b, color.a, rd, final(dp_out)@)
                },
        },
{
    if !display.initialized {
        return Err("Display not initialized");
    }
    if x >= display.width || y >= display.height {
        return Err("Coordinates out of bounds");
    }
    if display.current_mode == DisplayMode::Text80x25 {
        return Err("Cannot draw pixels in text mode");
    }
    let rh = hdmi_out.set_pixel(x, y, color.r, color.g, color.b, color.a);
    if rh.is_err() {
        let _fallback = dp_out.set_pixel(x, y, color.r, color.g, color.b, color.a);
    }
    Ok(())
}

/// Clear the screen with a specified color
pub fn clear_screen(display: &DisplayInfo, color: Color) -> (r: Result<(), &'static str>)
    ensures
        !display.initialized ==> r == Err::<(), &'static str>("Display not initialized"),
        display.initialized ==> r is Ok,
{
    if !display.initialized {
        return Err("Display not initialized");
    }
    Ok(())
}

/// Print text at the specified location
pub fn print_text(display: &DisplayInfo, x: u32, y: u32, text: &str, color: Color) -> (r: Result<(), &'static str>)
    ensures
        !display.initialized ==> r == Err::<(), &'static str>("Display not initialized"),
        display.initialized ==> r is Ok,
{
    if !display.initialized {
        return Err("Display not initialized");
    }
    Ok(())
}

/// Get the current display info
pub fn get_display_info(display: &DisplayInfo) -> (r: DisplayInfo)
    ensures
        r == *display,
{
    *display
}

} // verus!
