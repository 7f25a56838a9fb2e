//! VESA/VBE GPU driver: a linear framebuffer in the mode the firmware set
//! up (1024x768, 32 bits per pixel), drawn to byte by byte, with an optional
//! clipping rectangle and no hardware acceleration.

use vstd::prelude::*;
use super::{GpuInfo, GpuError, DisplayMode};
use super::specific::{GpuDevice, rect_in_range, line_in_range, iabs};

verus! {

/// Framebuffer width of the firmware's mode
pub const SCREEN_WIDTH: u32 = 1024;
/// Framebuffer height of the firmware's mode
pub const SCREEN_HEIGHT: u32 = 768;
/// Bytes per row: 1024 pixels of 4 bytes
pub const SCREEN_PITCH: u32 = 4096;
/// Where the firmware maps the framebuffer
pub const FRAMEBUFFER_ADDRESS: usize = 0xFD000000;

/// Initialize VESA/VBE
pub fn init() -> (r: Result<(), GpuError>)
    ensures
        r is Ok,
{
    Ok(())
}

/// The firmware's mode: 1024x768, 32 bits per pixel, 60 Hz.
pub open spec fn vesa_mode() -> DisplayMode {
    DisplayMode { width: 1024, height: 768, bpp: 32, refresh_rate: 60 }
}

/// The modes VESA offers: 800x600, 1024x768 and 1280x720, all 32 bits at
/// 60 Hz.
pub open spec fn vesa_modes() -> Seq<DisplayMode> {
    seq![
        DisplayMode { width: 800, height: 600, bpp: 32, refresh_rate: 60 },
        DisplayMode { width: 1024, height: 768, bpp: 32, refresh_rate: 60 },
        DisplayMode { width: 1280, height: 720, bpp: 32, refresh_rate: 60 },
    ]
}

/// The information VESA reports: 16 MiB of video memory, textures up to
/// 2048, no accelerated feature.
pub open spec fn is_vesa_info(i: GpuInfo) -> bool {
    &&& i.vendor@ == "VESA"@
    &&& i.device@ == "VESA VBE Framebuffer"@
    &&& i.vram_size == 16 * 1024 * 1024
    &&& i.max_texture_size == 2048
    &&& i.features == 0
    &&& i.current_mode == vesa_mode()
    &&& i.available_modes@ == vesa_modes()
}

/// Get current video mode
fn get_current_mode() -> (r: Result<DisplayMode, GpuError>)
    ensures
        r == Ok::<DisplayMode, GpuError>(vesa_mode()),
{
    Ok(DisplayMode { width: 1024, height: 768, bpp: 32, refresh_rate: 60 })
}

/// Get available video modes
fn get_available_modes() -> (r: Vec<DisplayMode>)
    ensures
        r@ == vesa_modes(),
{
    let r = vec![
        DisplayMode { width: 800, height: 600, bpp: 32, refresh_rate: 60 },
        DisplayMode { width: 1024, height: 768, bpp: 32, refresh_rate: 60 },
        DisplayMode { width: 1280, height: 720, bpp: 32, refresh_rate: 60 },
    ];
    assert(r@ =~= vesa_modes());
    r
}

/// Get framebuffer address
fn get_framebuffer_address() -> (r: Result<usize, GpuError>)
    ensures
        r == Ok::<usize, GpuError>(FRAMEBUFFER_ADDRESS),
{
    Ok(0xFD000000)
}

/// Get framebuffer pitch: the mode's width times its bytes per pixel.
fn get_framebuffer_pitch() -> (r: Result<u32, GpuError>)
    ensures
        r == Ok::<u32, GpuError>(SCREEN_PITCH),
{
    let mode = get_current_mode()?;
    Ok(mode.width * (mode.bpp as u32 / 8))
}

/// A copy of the information, field by field.
pub fn copy_info(info: &GpuInfo) -> (r: GpuInfo)
    ensures
        r.vendor@ == info.vendor@,
        r.device@ == info.device@,
        r.vram_size == info.vram_size,
        r.max_texture_size == info.max_texture_size,
        r.features == info.features,
        r.current_mode == info.current_mode,
        r.available_modes@ == info.available_modes@,
{
    let mut modes: Vec<DisplayMode> = Vec::new();
    let mut i: usize = 0;
    while i < info.available_modes.len()
        invariant
            0 <= i <= info.available_modes@.len(),
            modes@ == info.available_modes@.take(i as int),
        decreases info.available_modes@.len() - i,
    {
        modes.push(info.available_modes[i]);
        i += 1;
        assert(modes@ =~= info.available_modes@.take(i as int));
    }
    assert(info.available_modes@.take(i as int) =~= info.available_modes@);
    GpuInfo {
        vendor: info.vendor,
        device: info.device,
        vram_size: info.vram_size,
        max_texture_size: info.max_texture_size,
        features: info.features,
        current_mode: info.current_mode,
        available_modes: modes,
    }
}

/// Clipping rectangle
#[derive(Debug, Clone, Copy)]
struct ClipRect {
    x: i32,
    y: i32,
    width: u32,
    height: u32,
}

/// Byte `i` (0 lowest) of a colour word.
pub open spec fn color_byte(color: u32, i: int) -> u8 {
    ((color >> (8 * i) as u32) & 0xFF) as u8
}

/// Where byte `i` of pixel (`px`, `py`) lies in the framebuffer.
pub open spec fn pixel_index(px: int, py: int, i: int) -> int {
    py * 4096 + px * 4 + i
}

/// (`px`, `py`) is a pixel of the screen and `i` one of its bytes.
pub open spec fn on_screen(px: int, py: int, i: int) -> bool {
    0 <= px < 1024 && 0 <= py < 768 && 0 <= i < 4
}

/// A rectangle (x, y, width, height) holds the pixel (`px`, `py`).
pub open spec fn covers(r: (int, int, int, int), px: int, py: int) -> bool {
    r.0 <= px < r.0 + r.2 && r.1 <= py < r.1 + r.3
}

/// VESA driver implementation
pub struct VesaDriver {
    /// GPU information
    info: GpuInfo,
    /// Framebuffer address
    framebuffer: usize,
    /// Bytes per row
    pitch: u32,
    /// Screen width
    width: u32,
    /// Screen height
    height: u32,
    /// Bits per pixel
    bpp: u8,
    /// Current clipping rectangle
    clip_rect: Option<ClipRect>,
    /// The framebuffer's bytes, row after row
    memory: Vec<u8>,
}

/// Create a VESA driver over the firmware's mode, with a cleared screen
/// and no clipping.
pub fn create_driver() -> (r: Result<VesaDriver, GpuError>)
    ensures
        r matches Ok(d) && d.wf() && d.clip() is None && is_vesa_info(d.info())
            && d.framebuffer_address() == FRAMEBUFFER_ADDRESS
            && forall|px: int, py: int, i: int| on_screen(px, py, i) ==> #[trigger] d.pixels()[pixel_index(px, py, i)] == 0,
{
    let mode = get_current_mode()?;
    let framebuffer = get_framebuffer_address()?;
    let pitch = get_framebuffer_pitch()?;
    let total: usize = 4096 * 768;
    let mut memory: Vec<u8> = Vec::new();
    while memory.len() < total
        invariant
            memory@.len() <= total,
            total == 4096 * 768,
            forall|k: int| 0 <= k < memory@.len() ==> memory@[k] == 0,
        decreases total - memory@.len(),
    {
        memory.push(0);
    }
    let d = VesaDriver {
        info: GpuInfo {
            vendor: "VESA",
            device: "VESA VBE Framebuffer",
            vram_size: 16 * 1024 * 1024,
            max_texture_size: 2048,
            features: 0,
            current_mode: mode,
            available_modes: get_available_modes(),
        },
        framebuffer,
        pitch,
        width: mode.width,
        height: mode.height,
        bpp: mode.bpp,
        clip_rect: None,
        memory,
    };
    proof {
        reveal_strlit("VESA");
        reveal_strlit("VESA VBE Framebuffer");
        assert forall|px: int, py: int, i: int| on_screen(px, py, i) implies #[trigger] d.pixels()[pixel_index(px, py, i)] == 0 by {
            assert(0 <= pixel_index(px, py, i) < 4096 * 768);
        }
    }
    Ok(d)
}

/// The framebuffer after painting the rectangle (x, y, w, h) in `color`:
/// each byte of a covered pixel is the colour's byte, every other byte as
/// before.
pub open spec fn painted(new: Seq<u8>, old: Seq<u8>, r: (int, int, int, int), color: u32) -> bool {
    &&& new.len() == old.len()
    &&& forall|px: int, py: int, i: int|
        #![trigger pixel_index(px, py, i)]
        on_screen(px, py, i) ==> new[pixel_index(px, py, i)] == if covers(r, px, py) {
            color_byte(color, i)
        } else {
            old[pixel_index(px, py, i)]
        }
}

/// One interval of a rectangle clipped to the screen (`limit`) and to the
/// clipping interval, if any: it starts at the latest of the three starts
/// and ends at the earliest end, or is empty there.
pub open spec fn clipped_span(start: int, len: int, limit: int, clip: Option<(int, int)>) -> (int, int) {
    let s0 = if start < 0 { 0 } else { start };
    let s = match clip {
        Some(c) => if s0 < c.0 { c.0 } else { s0 },
        None => s0,
    };
    let e0 = if start + len < limit { start + len } else { limit };
    let e = match clip {
        Some(c) => if e0 < c.0 + c.1 { e0 } else { c.0 + c.1 },
        None => e0,
    };
    (s, if e < s { 0 } else { e - s })
}

/// A rectangle clipped to the screen and the clipping rectangle.
pub open spec fn clipped_rect(x: int, y: int, w: int, h: int, clip: Option<(int, int, int, int)>) -> (int, int, int, int) {
    let cx = match clip { Some(c) => Some((c.0, c.2)), None => None };
    let cy = match clip { Some(c) => Some((c.1, c.3)), None => None };
    let a = clipped_span(x, w, 1024, cx);
    let b = clipped_span(y, h, 768, cy);
    (a.0, b.0, a.1, b.1)
}

fn byte_of(color: u32, i: u32) -> (b: u8)
    requires
        i < 4,
    ensures
        b == color_byte(color, i as int),
{
    ((color >> (8 * i)) & 0xFF) as u8
}

/// Writes the four bytes of pixel (`px`, `py`).
fn put_pixel(memory: &mut Vec<u8>, px: usize, py: usize, color: u32)
    requires
        old(memory)@.len() == 4096 * 768,
        px < 1024,
        py < 768,
    ensures
        final(memory)@.len() == old(memory)@.len(),
        forall|k: int|
            0 <= k < old(memory)@.len() ==> #[trigger] final(memory)@[k] == if pixel_index(px as int, py as int, 0) <= k
                < pixel_index(px as int, py as int, 4) {
                color_byte(color, k - pixel_index(px as int, py as int, 0))
            } else {
                old(memory)@[k]
            },
{
    let base = py * 4096 + px * 4;
    let b0 = byte_of(color, 0);
    let b1 = byte_of(color, 1);
    let b2 = byte_of(color, 2);
    let b3 = byte_of(color, 3);
    memory.set(base, b0);
    memory.set(base + 1, b1);
    memory.set(base + 2, b2);
    memory.set(base + 3, b3);
}

/// Paints the rectangle (x, y, w, h), which lies within the screen.
fn paint(memory: &mut Vec<u8>, x: usize, y: usize, w: usize, h: usize, color: u32)
    requires
        old(memory)@.len() == 4096 * 768,
        x + w <= 1024,
        y + h <= 768,
    ensures
        painted(final(memory)@, old(memory)@, (x as int, y as int, w as int, h as int), color),
{
    let ghost old_mem = memory@;
    let mut r: usize = 0;
    while r < h
        invariant
            0 <= r <= h,
            x + w <= 1024,
            y + h <= 768,
            old_mem.len() == 4096 * 768,
            painted(memory@, old_mem, (x as int, y as int, w as int, r as int), color),
        decreases h - r,
    {
        let mut c: usize = 0;
        while c < w
            invariant
                0 <= c <= w,
                0 <= r < h,
                x + w <= 1024,
                y + h <= 768,
                old_mem.len() == 4096 * 768,
                memory@.len() == old_mem.len(),
                forall|px: int, py: int, i: int|
                    #![trigger pixel_index(px, py, i)]
                    on_screen(px, py, i) ==> memory@[pixel_index(px, py, i)] == if covers(
                        (x as int, y as int, w as int, r as int),
                        px,
                        py,
                    ) || (py == y + r && x <= px < x + c) {
                        color_byte(color, i)
                    } else {
                        old_mem[pixel_index(px, py, i)]
                    },
            decreases w - c,
        {
            let ghost before = memory@;
            put_pixel(memory, x + c, y + r, color);
            assert forall|px: int, py: int, i: int|
                #![trigger pixel_index(px, py, i)]
                on_screen(px, py, i) implies memory@[pixel_index(px, py, i)] == if covers(
                    (x as int, y as int, w as int, r as int),
                    px,
                    py,
                ) || (py == y + r && x <= px < x + c + 1) {
                    color_byte(color, i)
                } else {
                    old_mem[pixel_index(px, py, i)]
                } by {
                let k = pixel_index(px, py, i);
                let base = pixel_index((x + c) as int, (y + r) as int, 0);
                assert(0 <= k < 4096 * 768);
                if px == x + c && py == y + r {
                    assert(base <= k < base + 4);
                } else {
                    if py > y + r {
                        assert(k >= base + 4);
                    } else if py < y + r {
                        assert(k < base);
                    } else if px > x + c {
                        assert(k >= base + 4);
                    } else {
                        assert(k < base);
                    }
                    assert(memory@[k] == before[k]);
                }
            }
            c += 1;
        }
        r += 1;
    }
}

impl VesaDriver {
    /// Check if a point is within the clipping rectangle
    fn is_in_clip(&self, x: i32, y: i32) -> (b: bool)
        requires
            self.wf(),
        ensures
            b == match self.clip() {
                Some(c) => covers(c, x as int, y as int),
                None => true,
            },
    {
        match self.clip_rect {
            Some(clip) => x >= clip.x && x < clip.x + clip.width as i32 && y >= clip.y && y < clip.y + clip.height as i32,
            None => true,
        }
    }

    /// Apply clipping to a rectangle: cut it to the screen, then to the
    /// clipping rectangle.
    fn apply_clip(&self, x: i32, y: i32, width: u32, height: u32) -> (r: (i32, i32, u32, u32))
        requires
            self.wf(),
            rect_in_range(x, y, width, height),
        ensures
            (r.0 as int, r.1 as int, r.2 as int, r.3 as int) == clipped_rect(
                x as int,
                y as int,
                width as int,
                height as int,
                self.clip(),
            ),
    {
        let mut x = x;
        let mut y = y;
        let mut width = width;
        let mut height = height;
        if x < 0 {
            width = width.saturating_sub((-x) as u32);
            x = 0;
        }
        if y < 0 {
            height = height.saturating_sub((-y) as u32);
            y = 0;
        }
        if x + width as i32 > self.width as i32 {
            width = if self.width as i32 - x > 0 { (self.width as i32 - x) as u32 } else { 0 };
        }
        if y + height as i32 > self.height as i32 {
            height = if self.height as i32 - y > 0 { (self.height as i32 - y) as u32 } else { 0 };
        }
        match self.clip_rect {
            Some(clip) => {
                let clip_right = clip.x + clip.width as i32;
                let clip_bottom = clip.y + clip.height as i32;
                if x < clip.x {
                    width = width.saturating_sub((clip.x - x) as u32);
                    x = clip.x;
                }
                if y < clip.y {
                    height = height.saturating_sub((clip.y - y) as u32);
                    y = clip.y;
                }
                if x + width as i32 > clip_right {
                    width = if clip_right - x > 0 { (clip_right - x) as u32 } else { 0 };
                }
                if y + height as i32 > clip_bottom {
                    height = if clip_bottom - y > 0 { (clip_bottom - y) as u32 } else { 0 };
                }
            },
            None => {},
        }
        (x, y, width, height)
    }
}

impl VesaDriver {
    /// The mode is the firmware's, the framebuffer holds one byte per
    /// pixel byte, and a clipping rectangle lies within the screen.
    pub closed spec fn wf(&self) -> bool {
        &&& self.width == 1024 && self.height == 768 && self.bpp == 32 && self.pitch == 4096
        &&& self.memory@.len() == 4096 * 768
        &&& match self.clip_rect {
            Some(c) => 0 <= c.x && 0 <= c.y && c.x + c.width <= 1024 && c.y + c.height <= 768,
            None => true,
        }
    }

    /// The information the driver reports.
    pub closed spec fn info(&self) -> GpuInfo {
        self.info
    }

    /// The framebuffer's address.
    pub closed spec fn framebuffer_address(&self) -> usize {
        self.framebuffer
    }

    /// The clipping rectangle (x, y, width, height), if one is set.
    pub closed spec fn clip(&self) -> Option<(int, int, int, int)> {
        match self.clip_rect {
            Some(c) => Some((c.x as int, c.y as int, c.width as int, c.height as int)),
            None => None,
        }
    }

    /// The framebuffer's bytes.
    pub closed spec fn pixels(&self) -> Seq<u8> {
        self.memory@
    }

    /// The framebuffer's bytes, row after row, four per pixel.
    pub fn framebuffer_bytes(&self) -> (b: &[u8])
        ensures
            b@ == self.pixels(),
    {
        self.memory.as_slice()
    }
}

} // verus!

verus! {

impl VesaDriver {
    /// Everything but the framebuffer's bytes is as in `other`.
    pub closed spec fn same_setup(&self, other: &VesaDriver) -> bool {
        &&& self.info == other.info
        &&& self.framebuffer == other.framebuffer
        &&& self.pitch == other.pitch
        &&& self.width == other.width
        &&& self.height == other.height
        &&& self.bpp == other.bpp
        &&& self.clip_rect == other.clip_rect
    }

    /// Everything but the clipping rectangle is as in `other`.
    pub closed spec fn same_but_clip(&self, other: &VesaDriver) -> bool {
        &&& self.info == other.info
        &&& self.framebuffer == other.framebuffer
        &&& self.pitch == other.pitch
        &&& self.width == other.width
        &&& self.height == other.height
        &&& self.bpp == other.bpp
        &&& self.memory@ == other.memory@
    }
}

/// The clipping rectangle that `set_clip_rect` keeps: the corner clamped
/// to the screen, the size cut to what is left of the screen from there.
pub open spec fn clamped_clip(x: int, y: int, w: int, h: int) -> (int, int, int, int) {
    let cx = if x < 0 { 0 } else if x > 1024 { 1024 } else { x };
    let cy = if y < 0 { 0 } else if y > 768 { 768 } else { y };
    (cx, cy, if w < 1024 - cx { w } else { 1024 - cx }, if h < 768 - cy { h } else { 768 - cy })
}

impl GpuDevice for VesaDriver {
    open spec fn well_formed(&self) -> bool {
        self.wf()
    }

    /// No texture arithmetic: textures are refused.
    open spec fn texture_defined(&self, width: u32, height: u32, format: u32) -> bool {
        true
    }

    /// No framebuffer arithmetic: the framebuffer is fixed.
    open spec fn framebuffer_defined(&self, width: u32, height: u32) -> bool {
        true
    }

    fn get_info(&self) -> (r: Result<GpuInfo, GpuError>)
        ensures
            r matches Ok(i) && i.vendor@ == self.info().vendor@ && i.device@ == self.info().device@
                && i.vram_size == self.info().vram_size && i.max_texture_size == self.info().max_texture_size
                && i.features == self.info().features && i.current_mode == self.info().current_mode
                && i.available_modes@ == self.info().available_modes@,
    {
        Ok(copy_info(&self.info))
    }

    fn get_framebuffer(&mut self, _width: u32, _height: u32) -> (r: Result<usize, GpuError>)
        ensures
            r == Ok::<usize, GpuError>(old(self).framebuffer_address()),
            *final(self) == *old(self),
    {
        Ok(self.framebuffer)
    }

    fn get_framebuffer_pitch(&self) -> (r: Result<u32, GpuError>)
        ensures
            r == Ok::<u32, GpuError>(SCREEN_PITCH),
    {
        Ok(self.pitch)
    }

    /// Fills the whole framebuffer with the colour, clipping or not.
    fn clear(&mut self, color: u32) -> (r: Result<(), GpuError>)
        ensures
            r is Ok,
            final(self).same_setup(old(self)),
            painted(final(self).pixels(), old(self).pixels(), (0, 0, 1024, 768), color),
    {
        paint(&mut self.memory, 0, 0, 1024, 768, color);
        Ok(())
    }

    /// Fills the rectangle cut to the screen and the clipping rectangle.
    fn fill_rect(&mut self, x: i32, y: i32, width: u32, height: u32, color: u32) -> (r: Result<(), GpuError>)
        ensures
            r is Ok,
            final(self).same_setup(old(self)),
            painted(
                final(self).pixels(),
                old(self).pixels(),
                clipped_rect(x as int, y as int, width as int, height as int, old(self).clip()),
                color,
            ),
    {
        let (cx, cy, cw, ch) = self.apply_clip(x, y, width, height);
        if cw == 0 || ch == 0 {
            assert forall|px: int, py: int, i: int|
                #![trigger pixel_index(px, py, i)]
                on_screen(px, py, i) implies self.memory@[pixel_index(px, py, i)] == if covers(
                    clipped_rect(x as int, y as int, width as int, height as int, self.clip()),
                    px,
                    py,
                ) {
                    color_byte(color, i)
                } else {
                    self.memory@[pixel_index(px, py, i)]
                } by {}
            return Ok(());
        }
        paint(&mut self.memory, cx as usize, cy as usize, cw as usize, ch as usize, color);
        Ok(())
    }

    fn create_texture(&mut self, _width: u32, _height: u32, _format: u32, _data: &[u8]) -> (r: Result<u32, GpuError>)
        ensures
            r == Err::<u32, GpuError>(GpuError::UnsupportedFeature),
            *final(self) == *old(self),
    {
        Err(GpuError::UnsupportedFeature)
    }

    fn destroy_texture(&mut self, _texture_id: u32) -> (r: Result<(), GpuError>)
        ensures
            r == Err::<(), GpuError>(GpuError::UnsupportedFeature),
            *final(self) == *old(self),
    {
        Err(GpuError::UnsupportedFeature)
    }

    fn get_texture_data(&self, _texture_id: u32) -> (r: Result<&[u8], GpuError>)
        ensures
            r == Err::<&[u8], GpuError>(GpuError::UnsupportedFeature),
    {
        Err(GpuError::UnsupportedFeature)
    }

    fn draw_texture(&mut self, _texture_id: u32, _x: i32, _y: i32, _width: u32, _height: u32) -> (r: Result<(), GpuError>)
        ensures
            r == Err::<(), GpuError>(GpuError::UnsupportedFeature),
            *final(self) == *old(self),
    {
        Err(GpuError::UnsupportedFeature)
    }

    fn set_clip_rect(&mut self, x: i32, y: i32, width: u32, height: u32) -> (r: Result<(), GpuError>)
        ensures
            r is Ok,
            final(self).same_but_clip(old(self)),
            final(self).clip() == Some(clamped_clip(x as int, y as int, width as int, height as int)),
    {
        let sw = self.width as i32;
        let sh = self.height as i32;
        let x = if x < 0 { 0 } else if x > sw { sw } else { x };
        let y = if y < 0 { 0 } else if y > sh { sh } else { y };
        let room_x: u32 = if sw - x > 0 { (sw - x) as u32 } else { 0 };
        let room_y: u32 = if sh - y > 0 { (sh - y) as u32 } else { 0 };
        let width = if width < room_x { width } else { room_x };
        let height = if height < room_y { height } else { room_y };
        self.clip_rect = Some(ClipRect { x, y, width, height });
        Ok(())
    }

    fn clear_clip_rect(&mut self) -> (r: Result<(), GpuError>)
        ensures
            r is Ok,
            final(self).same_but_clip(old(self)),
            final(self).clip() is None,
    {
        self.clip_rect = None;
        Ok(())
    }

    fn set_blend_mode(&mut self, _mode: u32) -> (r: Result<(), GpuError>)
        ensures
            r == Err::<(), GpuError>(GpuError::UnsupportedFeature),
            *final(self) == *old(self),
    {
        Err(GpuError::UnsupportedFeature)
    }

    /// Draws the line with Bresenham's algorithm, both ends included.
    fn draw_line(&mut self, x1: i32, y1: i32, x2: i32, y2: i32, color: u32) -> (r: Result<(), GpuError>)
        ensures
            r is Ok,
            final(self).same_setup(old(self)),
            final(self).pixels().len() == old(self).pixels().len(),
            forall|px: int, py: int, i: int|
                #![trigger pixel_index(px, py, i)]
                on_screen(px, py, i) ==> final(self).pixels()[pixel_index(px, py, i)] == if on_line(
                    x1 as int,
                    y1 as int,
                    x2 as int,
                    y2 as int,
                    px,
                    py,
                ) && allowed(old(self).clip(), px, py) {
                    color_byte(color, i)
                } else {
                    old(self).pixels()[pixel_index(px, py, i)]
                },
    {
        self.trace_line(x1, y1, x2, y2, color);
        Ok(())
    }

    fn present(&mut self) -> (r: Result<(), GpuError>)
        ensures
            r == Ok::<(), GpuError>(()),
            *final(self) == *old(self),
    {
        Ok(())
    }

    fn shutdown(&mut self) -> (r: Result<(), GpuError>)
        ensures
            r is Ok,
            *final(self) == *old(self),
    {
        Ok(())
    }
}

} // verus!

verus! {

/// (px, py) is on the screen and inside the clipping rectangle, if any.
pub open spec fn allowed(clip: Option<(int, int, int, int)>, px: int, py: int) -> bool {
    &&& 0 <= px < 1024 && 0 <= py < 768
    &&& match clip {
        Some(c) => covers(c, px, py),
        None => true,
    }
}

/// The error term a line starts with: half the longer side, negated when
/// the line is at least as tall as it is wide (rounded toward zero).
pub open spec fn line_start_err(dx: int, dy: int) -> int {
    if dx > dy { dx / 2 } else { -(dy / 2) }
}

/// (x, y, error) after `n` steps of the line from (x1, y1) towards (x2, y2):
/// each step moves x by one toward x2 when the error exceeds -dx (taking dy
/// off it) and y by one toward y2 when the error is below dy (adding dx).
pub open spec fn line_state(x1: int, y1: int, x2: int, y2: int, n: nat) -> (int, int, int)
    decreases n,
{
    let dx = iabs(x2 - x1);
    let dy = iabs(y2 - y1);
    if n == 0 {
        (x1, y1, line_start_err(dx, dy))
    } else {
        let s = line_state(x1, y1, x2, y2, (n - 1) as nat);
        let step_x = s.2 > -dx;
        let step_y = s.2 < dy;
        (
            if step_x { if x1 < x2 { s.0 + 1 } else { s.0 - 1 } } else { s.0 },
            if step_y { if y1 < y2 { s.1 + 1 } else { s.1 - 1 } } else { s.1 },
            s.2 - (if step_x { dy } else { 0 }) + (if step_y { dx } else { 0 }),
        )
    }
}

/// The line passes (px, py): some step reaches it no later than the first
/// step that reaches (x2, y2).
pub open spec fn on_line(x1: int, y1: int, x2: int, y2: int, px: int, py: int) -> bool {
    exists|n: nat|
        #![trigger line_state(x1, y1, x2, y2, n)]
        line_state(x1, y1, x2, y2, n).0 == px && line_state(x1, y1, x2, y2, n).1 == py
            && forall|m: nat| m < n ==> !(#[trigger] line_state(x1, y1, x2, y2, m).0 == x2 && line_state(x1, y1, x2, y2, m).1 == y2)
}

/// The invariant of the line's steps after `i` moves in x and `j` in y.
pub open spec fn line_inv(dx: int, dy: int, i: int, j: int, e: int) -> bool {
    &&& 0 <= i <= dx && 0 <= j <= dy
    &&& e == line_start_err(dx, dy) + j * dx - i * dy
    &&& if dx > dy { 0 <= e < dx } else { dy == 0 || (-dy < e <= 0) }
}

proof fn lemma_line_step(dx: int, dy: int, i: int, j: int, e: int)
    requires
        dx >= 0,
        dy >= 0,
        line_inv(dx, dy, i, j, e),
        !(i == dx && j == dy),
    ensures
        e > -dx ==> i < dx,
        e < dy ==> j < dy,
        e > -dx || e < dy,
        line_inv(
            dx,
            dy,
            if e > -dx { i + 1 } else { i },
            if e < dy { j + 1 } else { j },
            e - (if e > -dx { dy } else { 0 }) + (if e < dy { dx } else { 0 }),
        ),
{
    let e0 = line_start_err(dx, dy);
    if i == dx {
        assert((dy - j) * dx >= dx) by (nonlinear_arith)
            requires
                j < dy,
                dx >= 0,
        ;
        assert(e == e0 - (dy - j) * dx) by (nonlinear_arith)
            requires
                e == e0 + j * dx - i * dy,
                i == dx,
        ;
    }
    if j == dy {
        assert((dx - i) * dy >= dy) by (nonlinear_arith)
            requires
                i < dx,
                dy >= 0,
        ;
        assert(e == e0 + (dx - i) * dy) by (nonlinear_arith)
            requires
                e == e0 + j * dx - i * dy,
                j == dy,
        ;
    }
    let i2 = if e > -dx { i + 1 } else { i };
    let j2 = if e < dy { j + 1 } else { j };
    assert(e0 + j2 * dx - i2 * dy == e - (if e > -dx { dy } else { 0 }) + (if e < dy { dx } else { 0 })) by (nonlinear_arith)
        requires
            e == e0 + j * dx - i * dy,
            i2 == if e > -dx { i + 1 } else { i },
            j2 == if e < dy { j + 1 } else { j },
    ;
}

impl VesaDriver {
    /// Writes pixel (x, y) where it is on the screen and inside the
    /// clipping rectangle.
    fn plot(&mut self, x: i32, y: i32, color: u32)
        requires
            old(self).wf(),
        ensures
            final(self).wf(),
            final(self).same_setup(old(self)),
            allowed(old(self).clip(), x as int, y as int) ==> painted(
                final(self).pixels(),
                old(self).pixels(),
                (x as int, y as int, 1, 1),
                color,
            ),
            !allowed(old(self).clip(), x as int, y as int) ==> final(self).pixels() == old(self).pixels(),
    {
        if x >= 0 && x < self.width as i32 && y >= 0 && y < self.height as i32 {
            if self.is_in_clip(x, y) {
                paint(&mut self.memory, x as usize, y as usize, 1, 1, color);
            }
        }
    }
}

} // verus!

verus! {

/// Some step before the `n`th reaches (px, py).
pub open spec fn visited_before(x1: int, y1: int, x2: int, y2: int, n: nat, px: int, py: int) -> bool {
    exists|m: nat|
        #![trigger line_state(x1, y1, x2, y2, m)]
        m < n && line_state(x1, y1, x2, y2, m).0 == px && line_state(x1, y1, x2, y2, m).1 == py
}

fn abs_i32(a: i32) -> (r: i32)
    requires
        a != i32::MIN,
    ensures
        r == iabs(a as int),
{
    if a < 0 { -a } else { a }
}

impl VesaDriver {
    /// Bresenham's line from (x1, y1) to (x2, y2), both ends included,
    /// keeping the pixels on the screen and inside the clipping rectangle.
    fn trace_line(&mut self, x1: i32, y1: i32, x2: i32, y2: i32, color: u32)
        requires
            old(self).wf(),
            line_in_range(x1, y1, x2, y2),
        ensures
            final(self).wf(),
            final(self).same_setup(old(self)),
            final(self).pixels().len() == old(self).pixels().len(),
            forall|px: int, py: int, i: int|
                #![trigger pixel_index(px, py, i)]
                on_screen(px, py, i) ==> final(self).pixels()[pixel_index(px, py, i)] == if on_line(
                    x1 as int,
                    y1 as int,
                    x2 as int,
                    y2 as int,
                    px,
                    py,
                ) && allowed(old(self).clip(), px, py) {
                    color_byte(color, i)
                } else {
                    old(self).pixels()[pixel_index(px, py, i)]
                },
    {
        let ghost (gx1, gy1, gx2, gy2) = (x1 as int, y1 as int, x2 as int, y2 as int);
        let ghost old_mem = self.memory@;
        let ghost clip = self.clip();
        let mut x = x1;
        let mut y = y1;
        let dx = abs_i32(x2 - x1);
        let dy = abs_i32(y2 - y1);
        let sx: i32 = if x1 < x2 { 1 } else { -1 };
        let sy: i32 = if y1 < y2 { 1 } else { -1 };
        let mut err: i32 = if dx > dy { dx / 2 } else { -(dy / 2) };
        let ghost mut n: nat = 0;
        let ghost mut i: int = 0;
        let ghost mut j: int = 0;
        loop
            invariant_except_break
                forall|px: int, py: int, k: int|
                    #![trigger pixel_index(px, py, k)]
                    on_screen(px, py, k) ==> self.memory@[pixel_index(px, py, k)] == if visited_before(
                        gx1,
                        gy1,
                        gx2,
                        gy2,
                        n,
                        px,
                        py,
                    ) && allowed(clip, px, py) {
                        color_byte(color, k)
                    } else {
                        old_mem[pixel_index(px, py, k)]
                    },
            invariant
                self.wf(),
                self.same_setup(old(self)),
                clip == self.clip(),
                gx1 == x1 as int && gy1 == y1 as int && gx2 == x2 as int && gy2 == y2 as int,
                old_mem == old(self).pixels(),
                dx == iabs(gx2 - gx1),
                dy == iabs(gy2 - gy1),
                dx + dy <= i32::MAX,
                sx == (if x1 < x2 { 1i32 } else { -1i32 }),
                sy == (if y1 < y2 { 1i32 } else { -1i32 }),
                line_state(gx1, gy1, gx2, gy2, n) == (x as int, y as int, err as int),
                x == (if x1 < x2 { gx1 + i } else { gx1 - i }),
                y == (if y1 < y2 { gy1 + j } else { gy1 - j }),
                line_inv(dx as int, dy as int, i, j, err as int),
                forall|m: nat| m < n ==> !(#[trigger] line_state(gx1, gy1, gx2, gy2, m).0 == gx2 && line_state(gx1, gy1, gx2, gy2, m).1 == gy2),
                self.memory@.len() == old_mem.len(),
            ensures
                self.wf(),
                self.same_setup(old(self)),
                self.memory@.len() == old_mem.len(),
                forall|px: int, py: int, k: int|
                    #![trigger pixel_index(px, py, k)]
                    on_screen(px, py, k) ==> self.memory@[pixel_index(px, py, k)] == if on_line(gx1, gy1, gx2, gy2, px, py)
                        && allowed(clip, px, py) {
                        color_byte(color, k)
                    } else {
                        old_mem[pixel_index(px, py, k)]
                    },
            decreases (dx - i) + (dy - j),
        {
            let ghost before = self.memory@;
            self.plot(x, y, color);
            proof {
                assert forall|px: int, py: int, k: int|
                    #![trigger pixel_index(px, py, k)]
                    on_screen(px, py, k) implies self.memory@[pixel_index(px, py, k)] == if visited_before(
                        gx1,
                        gy1,
                        gx2,
                        gy2,
                        n + 1,
                        px,
                        py,
                    ) && allowed(clip, px, py) {
                        color_byte(color, k)
                    } else {
                        old_mem[pixel_index(px, py, k)]
                    } by {
                    if px == x && py == y {
                        assert(line_state(gx1, gy1, gx2, gy2, n).0 == px && line_state(gx1, gy1, gx2, gy2, n).1 == py);
                        assert(visited_before(gx1, gy1, gx2, gy2, n + 1, px, py));
                    } else {
                        if visited_before(gx1, gy1, gx2, gy2, n + 1, px, py) {
                            let m = choose|m: nat|
                                #![trigger line_state(gx1, gy1, gx2, gy2, m)]
                                m < n + 1 && line_state(gx1, gy1, gx2, gy2, m).0 == px && line_state(gx1, gy1, gx2, gy2, m).1 == py;
                            assert(m != n);
                            assert(visited_before(gx1, gy1, gx2, gy2, n, px, py));
                        } else {
                            if visited_before(gx1, gy1, gx2, gy2, n, px, py) {
                                let m = choose|m: nat|
                                    #![trigger line_state(gx1, gy1, gx2, gy2, m)]
                                    m < n && line_state(gx1, gy1, gx2, gy2, m).0 == px && line_state(gx1, gy1, gx2, gy2, m).1 == py;
                                assert(m < n + 1);
                            }
                        }
                    }
                }
            }
            if x == x2 && y == y2 {
                proof {
                    assert(line_state(gx1, gy1, gx2, gy2, n).0 == gx2 && line_state(gx1, gy1, gx2, gy2, n).1 == gy2);
                    assert forall|px: int, py: int|
                        visited_before(gx1, gy1, gx2, gy2, n + 1, px, py) == on_line(gx1, gy1, gx2, gy2, px, py) by {
                        if visited_before(gx1, gy1, gx2, gy2, n + 1, px, py) {
                            let m = choose|m: nat|
                                #![trigger line_state(gx1, gy1, gx2, gy2, m)]
                                m < n + 1 && line_state(gx1, gy1, gx2, gy2, m).0 == px && line_state(gx1, gy1, gx2, gy2, m).1 == py;
                            assert forall|m2: nat| m2 < m implies !(#[trigger] line_state(gx1, gy1, gx2, gy2, m2).0 == gx2
                                && line_state(gx1, gy1, gx2, gy2, m2).1 == gy2) by {
                                assert(m2 < n);
                            }
                        }
                        if on_line(gx1, gy1, gx2, gy2, px, py) {
                            let m = choose|m: nat|
                                #![trigger line_state(gx1, gy1, gx2, gy2, m)]
                                line_state(gx1, gy1, gx2, gy2, m).0 == px && line_state(gx1, gy1, gx2, gy2, m).1 == py
                                    && forall|m2: nat| m2 < m ==> !(#[trigger] line_state(gx1, gy1, gx2, gy2, m2).0 == gx2
                                        && line_state(gx1, gy1, gx2, gy2, m2).1 == gy2);
                            if m > n {
                                assert(line_state(gx1, gy1, gx2, gy2, n).0 == gx2 && line_state(gx1, gy1, gx2, gy2, n).1 == gy2);
                            }
                            assert(m < n + 1);
                        }
                    }
                }
                break;
            }
            proof {
                lemma_line_step(dx as int, dy as int, i, j, err as int);
            }
            let e2 = err;
            if e2 > -dx {
                err -= dy;
                x += sx;
                proof {
                    i = i + 1;
                }
            }
            if e2 < dy {
                err += dx;
                y += sy;
                proof {
                    j = j + 1;
                }
            }
            proof {
                assert(line_state(gx1, gy1, gx2, gy2, (n + 1) as nat) == (x as int, y as int, err as int));
                assert(!(line_state(gx1, gy1, gx2, gy2, n).0 == gx2 && line_state(gx1, gy1, gx2, gy2, n).1 == gy2));
                n = n + 1;
            }
        }
    }
}

} // verus!
