//! Rendering primitives: colours, rectangles and the resources a renderer
//! manages.

use vstd::prelude::*;
use crate::kernel::drivers::gpu::{self, GpuError, GpuSubsystem, feature_bits};
use crate::kernel::drivers::gpu::specific::nvidia::ampere::ampere_features;
use crate::scan::{decimal_chars, decimal_chars_u64, decimal_seq};
use crate::text::{string_from_chars, string_from_str, string_push_str};

verus! {

/// Color in RGBA format
#[derive(Debug, Clone, Copy, PartialEq, Eq, Structural)]
pub struct Color {
    pub r: u8,
    pub g: u8,
    pub b: u8,
    pub a: u8,
}

impl Color {
    pub fn new(r: u8, g: u8, b: u8, a: u8) -> (c: Self)
        ensures
            c == (Color { r, g, b, a }),
    {
        Self { r, g, b, a }
    }

    pub fn rgb(r: u8, g: u8, b: u8) -> (c: Self)
        ensures
            c == (Color { r, g, b, a: 255 }),
    {
        Self { r, g, b, a: 255 }
    }

    /// Packs the colour as 0xRRGGBBAA.
    pub fn to_rgba(&self) -> (v: u32)
        ensures
            v == self.r * 0x1000000 + self.g * 0x10000 + self.b * 0x100 + self.a,
    {
        let (r, g, b, a) = (self.r as u32, self.g as u32, self.b as u32, self.a as u32);
        assert((r << 24) | (g << 16) | (b << 8) | a == r * 0x1000000 + g * 0x10000 + b * 0x100 + a) by (bit_vector)
            requires
                r < 256,
                g < 256,
                b < 256,
                a < 256,
        ;
        (r << 24) | (g << 16) | (b << 8) | a
    }

    /// Packs the colour as 0xAARRGGBB.
    pub fn to_argb(&self) -> (v: u32)
        ensures
            v == self.a * 0x1000000 + self.r * 0x10000 + self.g * 0x100 + self.b,
    {
        let (r, g, b, a) = (self.r as u32, self.g as u32, self.b as u32, self.a as u32);
        assert((a << 24) | (r << 16) | (g << 8) | b == a * 0x1000000 + r * 0x10000 + g * 0x100 + b) by (bit_vector)
            requires
                r < 256,
                g < 256,
                b < 256,
                a < 256,
        ;
        (a << 24) | (r << 16) | (g << 8) | b
    }

    /// The named colour black.
    pub fn black() -> (c: Self)
        ensures
            c == (Color { r: 0, g: 0, b: 0, a: 255 }),
    {
        Self { r: 0, g: 0, b: 0, a: 255 }
    }

    /// The named colour white.
    pub fn white() -> (c: Self)
        ensures
            c == (Color { r: 255, g: 255, b: 255, a: 255 }),
    {
        Self { r: 255, g: 255, b: 255, a: 255 }
    }

    /// The named colour red.
    pub fn red() -> (c: Self)
        ensures
            c == (Color { r: 255, g: 0, b: 0, a: 255 }),
    {
        Self { r: 255, g: 0, b: 0, a: 255 }
    }

    /// The named colour green.
    pub fn green() -> (c: Self)
        ensures
            c == (Color { r: 0, g: 255, b: 0, a: 255 }),
    {
        Self { r: 0, g: 255, b: 0, a: 255 }
    }

    /// The named colour blue.
    pub fn blue() -> (c: Self)
        ensures
            c == (Color { r: 0, g: 0, b: 255, a: 255 }),
    {
        Self { r: 0, g: 0, b: 255, a: 255 }
    }

    /// The named colour transparent.
    pub fn transparent() -> (c: Self)
        ensures
            c == (Color { r: 0, g: 0, b: 0, a: 0 }),
    {
        Self { r: 0, g: 0, b: 0, a: 0 }
    }

    /// The named colour ui background.
    pub fn ui_background() -> (c: Self)
        ensures
            c == (Color { r: 45, g: 45, b: 48, a: 255 }),
    {
        Self { r: 45, g: 45, b: 48, a: 255 }
    }

    /// The named colour ui foreground.
    pub fn ui_foreground() -> (c: Self)
        ensures
            c == (Color { r: 200, g: 200, b: 200, a: 255 }),
    {
        Self { r: 200, g: 200, b: 200, a: 255 }
    }

    /// The named colour ui accent.
    pub fn ui_accent() -> (c: Self)
        ensures
            c == (Color { r: 0, g: 120, b: 215, a: 255 }),
    {
        Self { r: 0, g: 120, b: 215, a: 255 }
    }
}

/// Represents a rectangular area
#[derive(Debug, Clone, Copy, PartialEq, Eq, Structural)]
pub struct Rect {
    pub x: i32,
    pub y: i32,
    pub width: u32,
    pub height: u32,
}

/// The right edge of `r` (one past its last column), computed in 32 bits
/// as the rectangle's own arithmetic does.
pub open spec fn right(r: Rect) -> int {
    r.x + (r.width as i32)
}

/// The bottom edge of `r` (one past its last row).
pub open spec fn bottom(r: Rect) -> int {
    r.y + (r.height as i32)
}

/// The edges of `r` fit in 32-bit coordinates.
pub open spec fn edges_fit(r: Rect) -> bool {
    i32::MIN <= right(r) <= i32::MAX && i32::MIN <= bottom(r) <= i32::MAX
}

/// The point (`px`, `py`) lies in `r`.
pub open spec fn in_rect(r: Rect, px: int, py: int) -> bool {
    r.x <= px < right(r) && r.y <= py < bottom(r)
}

/// The two rectangles overlap.
pub open spec fn overlap(a: Rect, b: Rect) -> bool {
    !(right(a) <= b.x || right(b) <= a.x || bottom(a) <= b.y || bottom(b) <= a.y)
}

pub open spec fn max_i(a: int, b: int) -> int {
    if a >= b { a } else { b }
}

pub open spec fn min_i(a: int, b: int) -> int {
    if a <= b { a } else { b }
}

/// The overlap of two rectangles, if they overlap.
pub open spec fn meet(a: Rect, b: Rect) -> Option<Rect> {
    if !overlap(a, b) {
        None
    } else {
        let x = max_i(a.x as int, b.x as int);
        let y = max_i(a.y as int, b.y as int);
        let w = min_i(right(a), right(b)) - x;
        let h = min_i(bottom(a), bottom(b)) - y;
        if w <= 0 || h <= 0 {
            None
        } else {
            Some(Rect { x: x as i32, y: y as i32, width: w as u32, height: h as u32 })
        }
    }
}

impl Rect {
    pub fn new(x: i32, y: i32, width: u32, height: u32) -> (r: Self)
        ensures
            r == (Rect { x, y, width, height }),
    {
        Self { x, y, width, height }
    }

    pub fn contains(&self, x_test: i32, y_test: i32) -> (r: bool)
        requires
            edges_fit(*self),
        ensures
            r == in_rect(*self, x_test as int, y_test as int),
    {
        x_test >= self.x && x_test < self.x + self.width as i32 && y_test >= self.y && y_test < self.y
            + self.height as i32
    }

    pub fn intersects(&self, other: &Rect) -> (r: bool)
        requires
            edges_fit(*self),
            edges_fit(*other),
        ensures
            r == overlap(*self, *other),
    {
        !(self.x + self.width as i32 <= other.x || other.x + other.width as i32 <= self.x || self.y
            + self.height as i32 <= other.y || other.y + other.height as i32 <= self.y)
    }

    pub fn intersection(&self, other: &Rect) -> (r: Option<Rect>)
        requires
            edges_fit(*self),
            edges_fit(*other),
        ensures
            r == meet(*self, *other),
    {
        if !self.intersects(other) {
            return None;
        }
        let x_intersect = if self.x >= other.x { self.x } else { other.x };
        let y_intersect = if self.y >= other.y { self.y } else { other.y };
        let self_right = self.x + self.width as i32;
        let other_right = other.x + other.width as i32;
        let self_bottom = self.y + self.height as i32;
        let other_bottom = other.y + other.height as i32;
        let min_right = if self_right <= other_right { self_right } else { other_right };
        let min_bottom = if self_bottom <= other_bottom { self_bottom } else { other_bottom };
        let width_intersect = min_right - x_intersect;
        let height_intersect = min_bottom - y_intersect;
        if width_intersect <= 0 || height_intersect <= 0 {
            return None;
        }
        Some(Rect::new(x_intersect, y_intersect, width_intersect as u32, height_intersect as u32))
    }
}

/// Overlap does not depend on the order of the rectangles.
pub proof fn lemma_overlap_symmetric(a: Rect, b: Rect)
    ensures
        overlap(a, b) == overlap(b, a),
{
}

/// The intersection does not depend on the order of the rectangles.
pub proof fn lemma_intersection_commutes(a: Rect, b: Rect)
    ensures
        meet(a, b) == meet(b, a),
{
}

/// A point lies in the intersection exactly when it lies in both
/// rectangles.
pub proof fn lemma_intersection_points(a: Rect, b: Rect, px: int, py: int)
    requires
        edges_fit(a),
        edges_fit(b),
    ensures
        meet(a, b) matches Some(m) ==> (in_rect(m, px, py) <==> in_rect(a, px, py) && in_rect(b, px, py)),
        meet(a, b) is None ==> !(in_rect(a, px, py) && in_rect(b, px, py)),
{
    if let Some(m) = meet(a, b) {
        let x = max_i(a.x as int, b.x as int);
        let y = max_i(a.y as int, b.y as int);
        let w = min_i(right(a), right(b)) - x;
        let h = min_i(bottom(a), bottom(b)) - y;
        assert(0 < w <= i32::MAX);
        assert(0 < h <= i32::MAX);
        assert((w as u32) as i32 == w);
        assert((h as u32) as i32 == h);
        assert(right(m) == min_i(right(a), right(b)));
        assert(bottom(m) == min_i(bottom(a), bottom(b)));
    }
}

#[derive(Debug, Clone, Copy, PartialEq, Eq, Structural)]
pub enum TextureFormat {
    RGBA8,
    RGB8,
    BGRA8,
    A8,
}

#[derive(Debug, Clone, Copy, PartialEq, Eq, Structural)]
pub enum BlendMode {
    /// No blending: the source replaces the destination.
    NoBlend,
    Alpha,
    Additive,
    Multiply,
}

impl TextureFormat {
    /// The format's number: 0 to 3 in declaration order.
    pub fn code(self) -> (c: u32)
        ensures
            c == match self {
                TextureFormat::RGBA8 => 0u32,
                TextureFormat::RGB8 => 1u32,
                TextureFormat::BGRA8 => 2u32,
                TextureFormat::A8 => 3u32,
            },
    {
        match self {
            TextureFormat::RGBA8 => 0,
            TextureFormat::RGB8 => 1,
            TextureFormat::BGRA8 => 2,
            TextureFormat::A8 => 3,
        }
    }
}

impl BlendMode {
    /// The mode's number: 0 to 3 in declaration order.
    pub fn code(self) -> (c: u32)
        ensures
            c == match self {
                BlendMode::NoBlend => 0u32,
                BlendMode::Alpha => 1u32,
                BlendMode::Additive => 2u32,
                BlendMode::Multiply => 3u32,
            },
    {
        match self {
            BlendMode::NoBlend => 0,
            BlendMode::Alpha => 1,
            BlendMode::Additive => 2,
            BlendMode::Multiply => 3,
        }
    }
}

#[derive(Debug)]
pub struct Texture {
    pub id: u32,
    pub width: u32,
    pub height: u32,
    pub format: TextureFormat,
}

#[derive(Debug)]
pub struct RendererCapabilities {
    pub max_texture_size: (u32, u32),
    pub supports_blend_modes: Vec<BlendMode>,
    pub supports_render_targets: bool,
    pub supports_shaders: bool,
    pub supported_texture_formats: Vec<TextureFormat>,
}

#[derive(Debug)]
pub enum RendererError {
    InitializationFailed(String),
    InvalidParameters(String),
    TextureCreationFailed(String),
    DrawingFailed(String),
    UnsupportedFeature(String),
    ResourceNotFound(String),
    MemoryError(String),
}

} // verus!

verus! {

/// The capabilities a renderer reports: textures up to `max` square, no
/// blending beyond alpha, RGBA8 and BGRA8 textures.
pub open spec fn capabilities_are(c: RendererCapabilities, max: u32, render_targets: bool, shaders: bool) -> bool {
    &&& c.max_texture_size == (max, max)
    &&& c.supports_blend_modes@ == seq![BlendMode::NoBlend, BlendMode::Alpha]
    &&& c.supports_render_targets == render_targets
    &&& c.supports_shaders == shaders
    &&& c.supported_texture_formats@ == seq![TextureFormat::RGBA8, TextureFormat::BGRA8]
}

/// A 2D renderer over the GPU's framebuffer, or over a framebuffer of its
/// own where the GPU provides none.
pub struct Renderer {
    pub width: u32,
    pub height: u32,
    /// Address of the framebuffer the renderer draws to
    pub framebuffer_address: u64,
    /// Total size of the framebuffer in bytes
    pub framebuffer_size_bytes: usize,
    /// Pitch (stride) of the framebuffer in bytes
    pub framebuffer_pitch_bytes: u32,
    /// True if the GPU provided the framebuffer
    pub using_gpu_provided_framebuffer: bool,
    pub clip_rect: Option<Rect>,
    pub current_blend_mode: BlendMode,
    /// Whether the GPU subsystem came up
    pub is_gpu_hardware_available: bool,
    pub capabilities: RendererCapabilities,
    pub textures: Vec<Texture>,
    /// The pixels of the renderer's own framebuffer, when it has one
    pub software_framebuffer: Vec<u32>,
    /// The GPU the renderer draws through
    pub gpu: GpuSubsystem,
}

fn two_modes() -> (v: Vec<BlendMode>)
    ensures
        v@ == seq![BlendMode::NoBlend, BlendMode::Alpha],
{
    let v = vec![BlendMode::NoBlend, BlendMode::Alpha];
    assert(v@ =~= seq![BlendMode::NoBlend, BlendMode::Alpha]);
    v
}

fn two_formats() -> (v: Vec<TextureFormat>)
    ensures
        v@ == seq![TextureFormat::RGBA8, TextureFormat::BGRA8],
{
    let v = vec![TextureFormat::RGBA8, TextureFormat::BGRA8];
    assert(v@ =~= seq![TextureFormat::RGBA8, TextureFormat::BGRA8]);
    v
}

impl Renderer {
    /// Create a renderer: refused for a zero size. It brings up the GPU (the
    /// Ampere driver of the RTX 3080), asks it for a framebuffer of this
    /// size, and, as the card hands out none (address 0), draws into a
    /// framebuffer of its own; with the GPU's texture limit and features,
    /// alpha blending and no clipping.
    pub fn new(width: u32, height: u32) -> (r: Result<Self, RendererError>)
        requires
            width != 0 && height != 0 ==> width * height * 4 <= u32::MAX,
        ensures
            (width == 0 || height == 0) <==> r is Err,
            r matches Err(e) ==> e matches RendererError::InvalidParameters(m) && m@
                == "Width and height must be non-zero."@,
            r matches Ok(re) ==> {
                &&& re.width == width && re.height == height
                &&& re.gpu.wf() && re.gpu.is_initialized()
                &&& re.gpu.driver().next_texture_id == 1
                &&& re.gpu.driver().framebuffer == 0
                &&& re.is_gpu_hardware_available
                &&& !re.using_gpu_provided_framebuffer
                &&& re.framebuffer_address == 0
                &&& re.framebuffer_size_bytes == width * height * 4
                &&& re.framebuffer_pitch_bytes == width * 4
                &&& re.clip_rect is None
                &&& re.current_blend_mode == BlendMode::Alpha
                &&& capabilities_are(re.capabilities, 32768, true, true)
                &&& re.textures@.len() == 0
                &&& re.software_framebuffer@.len() == width * height
                &&& forall|k: int| 0 <= k < width * height ==> #[trigger] re.software_framebuffer@[k] == 0
            },
    {
        if width == 0 || height == 0 {
            return Err(RendererError::InvalidParameters(crate::text::string_from_str("Width and height must be non-zero.")));
        }
        let mut gpu = GpuSubsystem::new();
        let is_gpu_hw_available = gpu::init(&mut gpu).is_ok();
        proof {
            assert(crate::kernel::drivers::gpu::pci::simulated_gpus()[0].bar1 == 0);
            assert((0u32 & 0xFFFFFFF0u32) == 0) by (bit_vector);
            assert(gpu.driver().framebuffer == 0);
            assert((ampere_features() & (feature_bits(gpu::Feature::RenderTargets) as u32)) != 0) by (bit_vector);
            assert((ampere_features() & (feature_bits(gpu::Feature::Shaders) as u32)) != 0) by (bit_vector);
        }
        let mut fb_address: u64 = 0;
        let mut fb_size_bytes: usize = 0;
        let mut fb_pitch_bytes: u32 = 0;
        let mut using_gpu_fb = false;
        assert(width * 4 <= u32::MAX) by (nonlinear_arith)
            requires
                width * height * 4 <= u32::MAX,
                height >= 1,
        ;
        if is_gpu_hw_available {
            match gpu::get_framebuffer(&mut gpu, width, height) {
                Ok(gpu_raw_ptr) => {
                    if gpu_raw_ptr != 0 {
                        fb_address = gpu_raw_ptr as u64;
                        fb_size_bytes = (width * height * 4) as usize;
                        assert(width * 4 <= u32::MAX) by (nonlinear_arith)
                            requires
                                width * height * 4 <= u32::MAX,
                                height >= 1,
                        ;
                        let fallback = width * 4;
                        fb_pitch_bytes = match gpu::get_framebuffer_pitch(&gpu) {
                            Ok(p) => p,
                            Err(_) => fallback,
                        };
                        using_gpu_fb = true;
                    }
                },
                Err(_) => {},
            }
        }
        let mut software_framebuffer: Vec<u32> = Vec::new();
        if !using_gpu_fb {
            assert(width * 4 <= u32::MAX && width * height <= u32::MAX) by (nonlinear_arith)
                requires
                    width * height * 4 <= u32::MAX,
                    height >= 1,
            ;
            fb_size_bytes = (width * height * 4) as usize;
            fb_pitch_bytes = width * 4;
            let pixels = width as usize * height as usize;
            while software_framebuffer.len() < pixels
                invariant
                    software_framebuffer@.len() <= pixels,
                    forall|k: int| 0 <= k < software_framebuffer@.len() ==> #[trigger] software_framebuffer@[k] == 0,
                decreases pixels - software_framebuffer@.len(),
            {
                software_framebuffer.push(0);
            }
        }
        proof {
            assert(forall|x: u32| 0u32 & x == 0) by (bit_vector);
        }
        let capabilities = if is_gpu_hw_available {
            let size = match gpu::get_max_texture_size(&gpu) {
                Ok(s) => s,
                Err(_) => 2048,
            };
            let render_targets = match gpu::supports_feature(&gpu, gpu::Feature::RenderTargets) {
                Ok(b) => b,
                Err(_) => false,
            };
            let shaders = match gpu::supports_feature(&gpu, gpu::Feature::Shaders) {
                Ok(b) => b,
                Err(_) => false,
            };
            RendererCapabilities {
                max_texture_size: (size, size),
                supports_blend_modes: two_modes(),
                supports_render_targets: render_targets,
                supports_shaders: shaders,
                supported_texture_formats: two_formats(),
            }
        } else {
            RendererCapabilities {
                max_texture_size: (2048, 2048),
                supports_blend_modes: two_modes(),
                supports_render_targets: false,
                supports_shaders: false,
                supported_texture_formats: two_formats(),
            }
        };
        proof {
            reveal_strlit("Width and height must be non-zero.");
        }
        Ok(Renderer {
            width,
            height,
            framebuffer_address: fb_address,
            framebuffer_size_bytes: fb_size_bytes,
            framebuffer_pitch_bytes: fb_pitch_bytes,
            using_gpu_provided_framebuffer: using_gpu_fb,
            clip_rect: None,
            current_blend_mode: BlendMode::Alpha,
            is_gpu_hardware_available: is_gpu_hw_available,
            capabilities,
            textures: Vec::new(),
            software_framebuffer,
            gpu,
        })
    }

    /// The renderer's size.
    pub fn dimensions(&self) -> (d: (u32, u32))
        ensures
            d == (self.width, self.height),
    {
        (self.width, self.height)
    }

    /// Drawing goes through the GPU: it provided the framebuffer and is up.
    pub fn is_accelerated(&self) -> (b: bool)
        ensures
            b == (self.using_gpu_provided_framebuffer && self.is_gpu_hardware_available),
    {
        self.using_gpu_provided_framebuffer && self.is_gpu_hardware_available
    }

    /// The renderer's capabilities.
    pub fn capabilities(&self) -> (c: &RendererCapabilities)
        ensures
            *c == self.capabilities,
    {
        &self.capabilities
    }
}

} // verus!

verus! {

/// A prefix, a number in decimal and a suffix.
fn id_message(prefix: &str, id: u32, suffix: &str) -> (m: String)
    ensures
        m@ == prefix@ + decimal_seq(id as nat) + suffix@,
{
    let mut m = string_from_str(prefix);
    let digits = decimal_chars(id);
    let d = string_from_chars(&digits);
    string_push_str(&mut m, d.as_str());
    string_push_str(&mut m, suffix);
    m
}

/// The name of a GPU error, as its `Debug` form prints it.
pub open spec fn gpu_error_name(e: GpuError) -> Seq<char> {
    match e {
        GpuError::NoDevice => "NoDevice"@,
        GpuError::InitializationFailed => "InitializationFailed"@,
        GpuError::InvalidParameter => "InvalidParameter"@,
        GpuError::InvalidDevice => "InvalidDevice"@,
        GpuError::UnsupportedFeature => "UnsupportedFeature"@,
        GpuError::OutOfMemory => "OutOfMemory"@,
        GpuError::InvalidCommand => "InvalidCommand"@,
        GpuError::InvalidTexture => "InvalidTexture"@,
        GpuError::MappingFailed => "MappingFailed"@,
        GpuError::NotSupported => "NotSupported"@,
        GpuError::NotInitialized => "NotInitialized"@,
        GpuError::UnsupportedFormat => "UnsupportedFormat"@,
        GpuError::UnsupportedDevice => "UnsupportedDevice"@,
        GpuError::HardwareError => "HardwareError"@,
        GpuError::ShutdownFailed => "ShutdownFailed"@,
        GpuError::TextureCreationFailed => "TextureCreationFailed"@,
        GpuError::SetModeFailed => "SetModeFailed"@,
        GpuError::DrawingFailed => "DrawingFailed"@,
        GpuError::CommunicationError => "CommunicationError"@,
        GpuError::DisplayModeFailed => "DisplayModeFailed"@,
        GpuError::OperationFailed => "OperationFailed"@,
    }
}

/// A prefix and the name of a GPU error.
fn gpu_error_message(prefix: &str, e: GpuError) -> (m: String)
    ensures
        m@ == prefix@ + gpu_error_name(e),
{
    let name: &str = match e {
        GpuError::NoDevice => "NoDevice",
        GpuError::InitializationFailed => "InitializationFailed",
        GpuError::InvalidParameter => "InvalidParameter",
        GpuError::InvalidDevice => "InvalidDevice",
        GpuError::UnsupportedFeature => "UnsupportedFeature",
        GpuError::OutOfMemory => "OutOfMemory",
        GpuError::InvalidCommand => "InvalidCommand",
        GpuError::InvalidTexture => "InvalidTexture",
        GpuError::MappingFailed => "MappingFailed",
        GpuError::NotSupported => "NotSupported",
        GpuError::NotInitialized => "NotInitialized",
        GpuError::UnsupportedFormat => "UnsupportedFormat",
        GpuError::UnsupportedDevice => "UnsupportedDevice",
        GpuError::HardwareError => "HardwareError",
        GpuError::ShutdownFailed => "ShutdownFailed",
        GpuError::TextureCreationFailed => "TextureCreationFailed",
        GpuError::SetModeFailed => "SetModeFailed",
        GpuError::DrawingFailed => "DrawingFailed",
        GpuError::CommunicationError => "CommunicationError",
        GpuError::DisplayModeFailed => "DisplayModeFailed",
        GpuError::OperationFailed => "OperationFailed",
    };
    let mut m = string_from_str(prefix);
    string_push_str(&mut m, name);
    m
}

/// The message for texture data of the wrong size: the sizes it should
/// have and has, in decimal.
fn size_mismatch_message(expected: u32, got: usize) -> (m: String)
    ensures
        m@ == "Data size mismatch for texture format. Expected "@ + decimal_seq(expected as nat) + ", got "@
            + decimal_seq(got as nat),
{
    let mut m = string_from_str("Data size mismatch for texture format. Expected ");
    let e = string_from_chars(&decimal_chars(expected));
    string_push_str(&mut m, e.as_str());
    string_push_str(&mut m, ", got ");
    let g = string_from_chars(&decimal_chars_u64(got as u64));
    string_push_str(&mut m, g.as_str());
    m
}

/// The rectangle a draw call touches: `rect` cut to the screen (its corner
/// moved to 0 where negative), then to the clipping rectangle, or nothing
/// where that leaves no pixel.
pub open spec fn draw_rect_of(rect: Rect, width: u32, height: u32, clip: Option<Rect>) -> Option<Rect> {
    let x = if rect.x < 0 { 0 } else { rect.x as int };
    let y = if rect.y < 0 { 0 } else { rect.y as int };
    if x >= width || y >= height {
        None
    } else {
        let end_x = min_i(x + (rect.width as i32), width as int);
        let end_y = min_i(y + (rect.height as i32), height as int);
        let w = max_i(end_x - x, 0);
        let h = max_i(end_y - y, 0);
        if w == 0 || h == 0 {
            None
        } else {
            let r = Rect { x: x as i32, y: y as i32, width: w as u32, height: h as u32 };
            match clip {
                Some(c) => meet(c, r),
                None => Some(r),
            }
        }
    }
}

/// A rectangle whose corner, moved to 0 where negative, keeps its far edges
/// within `i32`.
pub open spec fn draw_rect_in_range(rect: Rect) -> bool {
    &&& (if rect.x < 0 { 0 } else { rect.x as int }) + (rect.width as i32) <= i32::MAX
    &&& (if rect.y < 0 { 0 } else { rect.y as int }) + (rect.height as i32) <= i32::MAX
}

/// The texture and the place a software fallback draws it to: the
/// destination rectangle, the texture's size and format, and its bytes.
pub struct TextureBlit {
    pub dst: Rect,
    pub tex_width: u32,
    pub tex_height: u32,
    pub format: TextureFormat,
    pub data: Vec<u8>,
}

/// The position of the first texture with this id.
pub open spec fn texture_index(textures: Seq<Texture>, id: u32) -> Option<int> {
    if exists|i: int| 0 <= i < textures.len() && textures[i].id == id
        && forall|k: int| 0 <= k < i ==> textures[k].id != id {
        Some(choose|i: int| 0 <= i < textures.len() && textures[i].id == id
            && forall|k: int| 0 <= k < i ==> textures[k].id != id)
    } else {
        None
    }
}

impl Renderer {
    /// The GPU is well formed, the size is positive and its bytes fit in 32
    /// bits, and a clipping rectangle lies within the screen.
    pub open spec fn wf(&self) -> bool {
        &&& self.gpu.wf()
        &&& self.width >= 1 && self.height >= 1
        &&& self.width * self.height * 4 <= u32::MAX
        &&& match self.clip_rect {
            Some(c) => 0 <= c.x && 0 <= c.y && c.x + c.width <= self.width && c.y + c.height <= self.height,
            None => true,
        }
    }

    /// The rectangle a draw call touches, as `draw_rect_of` says.
    pub fn get_draw_rect(&self, rect: Rect) -> (r: Option<Rect>)
        requires
            self.wf(),
            draw_rect_in_range(rect),
        ensures
            r == draw_rect_of(rect, self.width, self.height, self.clip_rect),
    {
        assert(self.width * 4 <= u32::MAX && self.height * 4 <= u32::MAX) by (nonlinear_arith)
            requires
                self.width * self.height * 4 <= u32::MAX,
                self.width >= 1,
                self.height >= 1,
        ;
        let mut final_rect = rect;
        final_rect.x = if final_rect.x < 0 { 0 } else { final_rect.x };
        final_rect.y = if final_rect.y < 0 { 0 } else { final_rect.y };
        if final_rect.x >= self.width as i32 || final_rect.y >= self.height as i32 {
            return None;
        }
        let ex = final_rect.x + final_rect.width as i32;
        let ey = final_rect.y + final_rect.height as i32;
        let end_x = if ex <= self.width as i32 { ex } else { self.width as i32 };
        let end_y = if ey <= self.height as i32 { ey } else { self.height as i32 };
        final_rect.width = if end_x - final_rect.x >= 0 { (end_x - final_rect.x) as u32 } else { 0 };
        final_rect.height = if end_y - final_rect.y >= 0 { (end_y - final_rect.y) as u32 } else { 0 };
        if final_rect.width == 0 || final_rect.height == 0 {
            return None;
        }
        match self.clip_rect {
            Some(clip) => clip.intersection(&final_rect),
            None => Some(final_rect),
        }
    }

    /// Unpacks a 0xAARRGGBB word.
    pub fn unpack_color(&self, argb_val: u32) -> (c: Color)
        ensures
            c == (Color {
                a: (argb_val >> 24u32) as u8,
                r: (argb_val >> 16u32) as u8,
                g: (argb_val >> 8u32) as u8,
                b: argb_val as u8,
            }),
    {
        Color { a: (argb_val >> 24) as u8, r: (argb_val >> 16) as u8, g: (argb_val >> 8) as u8, b: argb_val as u8 }
    }

    /// Set the clipping rectangle to the part of `rect_opt` on the screen
    /// (none where it misses the screen), and pass it on to the GPU.
    pub fn set_clip_rect(&mut self, rect_opt: Option<Rect>)
        requires
            old(self).wf(),
            rect_opt matches Some(r) ==> edges_fit(r),
        ensures
            final(self).wf(),
            final(self).clip_rect == match rect_opt {
                Some(r) => meet(Rect { x: 0, y: 0, width: old(self).width, height: old(self).height }, r),
                None => None,
            },
            final(self).width == old(self).width && final(self).height == old(self).height,
            final(self).is_gpu_hardware_available == old(self).is_gpu_hardware_available,
            final(self).using_gpu_provided_framebuffer == old(self).using_gpu_provided_framebuffer,
    {
        let screen_rect = Rect::new(0, 0, self.width, self.height);
        self.clip_rect = match rect_opt {
            Some(r) => screen_rect.intersection(&r),
            None => None,
        };
        if self.is_gpu_hardware_available {
            match self.clip_rect {
                Some(r) => {
                    let _ = gpu::set_clip_rect(&mut self.gpu, r.x, r.y, r.width, r.height);
                },
                None => {
                    let _ = gpu::clear_clip_rect(&mut self.gpu);
                },
            }
        }
    }

    /// Set the blend mode, and pass it on to the GPU where the renderer
    /// lists it among the supported ones.
    pub fn set_blend_mode(&mut self, mode: BlendMode)
        requires
            old(self).wf(),
        ensures
            final(self).wf(),
            final(self).current_blend_mode == mode,
            final(self).clip_rect == old(self).clip_rect,
            final(self).width == old(self).width && final(self).height == old(self).height,
    {
        self.current_blend_mode = mode;
        let mut supported = false;
        let mut k: usize = 0;
        while k < self.capabilities.supports_blend_modes.len()
            invariant
                0 <= k <= self.capabilities.supports_blend_modes@.len(),
            decreases self.capabilities.supports_blend_modes@.len() - k,
        {
            if self.capabilities.supports_blend_modes[k] == mode {
                supported = true;
            }
            k += 1;
        }
        if self.is_gpu_hardware_available && supported {
            let _ = gpu::set_blend_mode(&mut self.gpu, mode.code());
        }
    }

    /// Present the frame: through the GPU when it provided the framebuffer.
    pub fn present(&mut self) -> (r: Result<(), RendererError>)
        requires
            old(self).wf(),
        ensures
            final(self).wf(),
            r is Ok <==> !(old(self).using_gpu_provided_framebuffer && old(self).is_gpu_hardware_available)
                || old(self).gpu.is_initialized(),
            final(self).gpu == old(self).gpu,
    {
        if self.using_gpu_provided_framebuffer && self.is_gpu_hardware_available {
            match gpu::present(&mut self.gpu) {
                Ok(_) => {},
                Err(e) => {
                    return Err(RendererError::DrawingFailed(gpu_error_message("GPU present failed: ", e)));
                },
            }
        }
        Ok(())
    }
}

} // verus!

verus! {

/// The bytes a texture's data must have: 4 per pixel for RGBA8 and BGRA8,
/// 3 for RGB8, 1 for A8.
pub open spec fn texture_bytes(width: u32, height: u32, format: TextureFormat) -> int {
    match format {
        TextureFormat::RGBA8 | TextureFormat::BGRA8 => width * height * 4,
        TextureFormat::RGB8 => width * height * 3,
        TextureFormat::A8 => width * height * 1,
    }
}

impl Renderer {
    /// Create a texture: refused for a zero or too large size and for data
    /// of the wrong length; else the GPU hands out the texture's id and the
    /// renderer records it (refused without a working GPU).
    pub fn create_texture(&mut self, width: u32, height: u32, format: TextureFormat, data: &[u8]) -> (r: Result<u32, RendererError>)
        requires
            old(self).wf(),
            width * height * 4 <= u32::MAX,
            old(self).gpu.is_initialized() ==> old(self).gpu.driver().next_texture_id < u32::MAX,
        ensures
            final(self).wf(),
            (width == 0 || height == 0 || width > old(self).capabilities.max_texture_size.0
                || height > old(self).capabilities.max_texture_size.1) ==> (r matches Err(
                RendererError::InvalidParameters(m),
            ) && m@ == "Invalid texture dimensions"@),
            !(width == 0 || height == 0 || width > old(self).capabilities.max_texture_size.0
                || height > old(self).capabilities.max_texture_size.1) && data@.len() != texture_bytes(width, height, format)
                ==> r matches Err(RendererError::InvalidParameters(_)),
            !(width == 0 || height == 0 || width > old(self).capabilities.max_texture_size.0
                || height > old(self).capabilities.max_texture_size.1) && data@.len() == texture_bytes(width, height, format)
                ==> if old(self).is_gpu_hardware_available && old(self).gpu.is_initialized() {
                r == Ok::<u32, RendererError>(old(self).gpu.driver().next_texture_id) && final(self).textures@
                    == old(self).textures@.push(Texture { id: old(self).gpu.driver().next_texture_id, width, height, format })
            } else if old(self).is_gpu_hardware_available {
                r matches Err(RendererError::TextureCreationFailed(_))
            } else {
                r matches Err(RendererError::UnsupportedFeature(m)) && m@ == "Software texture creation not implemented."@
            },
            r is Err ==> final(self).textures@ == old(self).textures@,
            final(self).clip_rect == old(self).clip_rect,
    {
        proof {
            reveal_strlit("Invalid texture dimensions");
            reveal_strlit("Software texture creation not implemented.");
        }
        if width == 0 || height == 0 || width > self.capabilities.max_texture_size.0
            || height > self.capabilities.max_texture_size.1 {
            return Err(RendererError::InvalidParameters(crate::text::string_from_str("Invalid texture dimensions")));
        }
        assert(width * height * 3 <= u32::MAX && width * height <= u32::MAX) by (nonlinear_arith)
            requires
                width * height * 4 <= u32::MAX,
        ;
        let expected_size: u32 = match format {
            TextureFormat::RGBA8 | TextureFormat::BGRA8 => width * height * 4,
            TextureFormat::RGB8 => width * height * 3,
            TextureFormat::A8 => width * height * 1,
        };
        if data.len() != expected_size as usize {
            return Err(RendererError::InvalidParameters(size_mismatch_message(expected_size, data.len())));
        }
        if self.is_gpu_hardware_available {
            match gpu::create_texture(&mut self.gpu, width, height, format.code(), data) {
                Ok(texture_id) => {
                    self.textures.push(Texture { id: texture_id, width, height, format });
                    Ok(texture_id)
                },
                Err(e) => Err(RendererError::TextureCreationFailed(gpu_error_message("GPU texture creation failed: ", e))),
            }
        } else {
            Err(RendererError::UnsupportedFeature(crate::text::string_from_str("Software texture creation not implemented.")))
        }
    }

    /// Destroy a texture: drops the first texture with this id, then has the
    /// GPU destroy it; refused for an unknown id.
    pub fn destroy_texture(&mut self, texture_id: u32) -> (r: Result<(), RendererError>)
        requires
            old(self).wf(),
        ensures
            final(self).wf(),
            match texture_index(old(self).textures@, texture_id) {
                None => r matches Err(RendererError::ResourceNotFound(_)) && final(self).textures@ == old(self).textures@,
                Some(i) => final(self).textures@ == old(self).textures@.remove(i) && (r is Ok
                    <==> (!old(self).is_gpu_hardware_available || old(self).gpu.is_initialized())),
            },
            final(self).clip_rect == old(self).clip_rect,
    {
        match self.texture_position(texture_id) {
            Some(k) => {
                self.textures.remove(k);
                if self.is_gpu_hardware_available {
                    match gpu::destroy_texture(&mut self.gpu, texture_id) {
                        Ok(_) => {},
                        Err(e) => {
                            return Err(RendererError::TextureCreationFailed(gpu_error_message("GPU texture destruction failed: ", e)));
                        },
                    }
                }
                return Ok(());
            },
            None => {},
        }
        Err(RendererError::ResourceNotFound(id_message("Texture ID ", texture_id, " not found for destruction.")))
    }

    /// Fill every pixel of the renderer's own framebuffer with the colour.
    fn clear_software(&mut self, color: Color)
        requires
            old(self).wf(),
        ensures
            final(self).wf(),
            final(self).software_framebuffer@.len() == old(self).software_framebuffer@.len(),
            forall|k: int| 0 <= k < final(self).software_framebuffer@.len()
                ==> #[trigger] final(self).software_framebuffer@[k] == color.a * 0x1000000 + color.r * 0x10000 + color.g * 0x100 + color.b,
            final(self).gpu == old(self).gpu,
            final(self).clip_rect == old(self).clip_rect,
    {
        let color_value = color.to_argb();
        let n = self.software_framebuffer.len();
        let mut k: usize = 0;
        while k < n
            invariant
                0 <= k <= n,
                n == self.software_framebuffer@.len(),
                self.wf(),
                self.gpu == old(self).gpu,
                self.clip_rect == old(self).clip_rect,
                n == old(self).software_framebuffer@.len(),
                forall|m: int| 0 <= m < k ==> #[trigger] self.software_framebuffer@[m] == color_value,
            decreases n - k,
        {
            self.software_framebuffer.set(k, color_value);
            k += 1;
        }
    }

    /// Clear the screen: through the GPU when it provided the framebuffer,
    /// else (or when the GPU refuses) in the renderer's own framebuffer.
    pub fn clear(&mut self, color: Color)
        requires
            old(self).wf(),
        ensures
            final(self).wf(),
            final(self).clip_rect == old(self).clip_rect,
            old(self).using_gpu_provided_framebuffer && old(self).is_gpu_hardware_available
                && old(self).gpu.is_initialized() ==> final(self).gpu == old(self).gpu
                && final(self).software_framebuffer == old(self).software_framebuffer,
            !(old(self).using_gpu_provided_framebuffer && old(self).is_gpu_hardware_available) ==> final(self).gpu
                == old(self).gpu && forall|k: int| 0 <= k < final(self).software_framebuffer@.len()
                ==> #[trigger] final(self).software_framebuffer@[k] == color.a * 0x1000000 + color.r * 0x10000
                + color.g * 0x100 + color.b,
    {
        if self.using_gpu_provided_framebuffer && self.is_gpu_hardware_available {
            if gpu::clear(&mut self.gpu, color.to_argb()).is_err() {
                self.clear_software(color);
            }
        } else {
            self.clear_software(color);
        }
    }

    /// The GPU part of filling a rectangle: the rectangle is cut to the
    /// screen and the clipping rectangle; where that leaves pixels and the
    /// GPU provided the framebuffer, the GPU fills it. The result is the
    /// rectangle still to fill in software: the cut one where the GPU did not
    /// fill it, none otherwise.
    pub fn fill_rect_plan(&mut self, rect: Rect, color: Color) -> (r: Option<Rect>)
        requires
            old(self).wf(),
            draw_rect_in_range(rect),
        ensures
            final(self).wf(),
            final(self).width == old(self).width && final(self).height == old(self).height,
            final(self).clip_rect == old(self).clip_rect,
            final(self).current_blend_mode == old(self).current_blend_mode,
            final(self).software_framebuffer == old(self).software_framebuffer,
            final(self).using_gpu_provided_framebuffer == old(self).using_gpu_provided_framebuffer,
            final(self).is_gpu_hardware_available == old(self).is_gpu_hardware_available,
            final(self).framebuffer_pitch_bytes == old(self).framebuffer_pitch_bytes,
            final(self).framebuffer_size_bytes == old(self).framebuffer_size_bytes,
            match draw_rect_of(rect, old(self).width, old(self).height, old(self).clip_rect) {
                None => r is None,
                Some(d) => if d.width == 0 || d.height == 0 {
                    r is None
                } else if old(self).using_gpu_provided_framebuffer && old(self).is_gpu_hardware_available
                    && old(self).gpu.is_initialized() {
                    r is None
                } else {
                    r == Some(d)
                },
            },
    {
        match self.get_draw_rect(rect) {
            None => None,
            Some(d) => {
                if d.width == 0 || d.height == 0 {
                    return None;
                }
                if self.using_gpu_provided_framebuffer && self.is_gpu_hardware_available {
                    assert(d.x + d.width <= self.width && d.y + d.height <= self.height);
                    if gpu::fill_rect(&mut self.gpu, d.x, d.y, d.width, d.height, color.to_argb()).is_err() {
                        return Some(d);
                    }
                    None
                } else {
                    Some(d)
                }
            },
        }
    }

    /// The GPU part of drawing a line: where the GPU provided the
    /// framebuffer, it draws the line. The result says whether the line is
    /// still to draw in software: where the GPU did not draw it.
    pub fn draw_line_plan(&mut self, x1: i32, y1: i32, x2: i32, y2: i32, color: Color) -> (software: bool)
        requires
            old(self).wf(),
            crate::kernel::drivers::gpu::specific::line_in_range(x1, y1, x2, y2),
        ensures
            final(self).wf(),
            final(self).width == old(self).width && final(self).height == old(self).height,
            final(self).clip_rect == old(self).clip_rect,
            final(self).current_blend_mode == old(self).current_blend_mode,
            final(self).software_framebuffer == old(self).software_framebuffer,
            final(self).using_gpu_provided_framebuffer == old(self).using_gpu_provided_framebuffer,
            final(self).is_gpu_hardware_available == old(self).is_gpu_hardware_available,
            final(self).framebuffer_pitch_bytes == old(self).framebuffer_pitch_bytes,
            final(self).framebuffer_size_bytes == old(self).framebuffer_size_bytes,
            software == !(old(self).using_gpu_provided_framebuffer && old(self).is_gpu_hardware_available
                && old(self).gpu.is_initialized()),
    {
        if self.using_gpu_provided_framebuffer && self.is_gpu_hardware_available {
            gpu::draw_line(&mut self.gpu, x1, y1, x2, y2, color.to_argb()).is_err()
        } else {
            true
        }
    }

    /// Blend `src` over `dst` in the current blend mode where that takes
    /// integers only: no blending gives `src`; alpha blending gives `dst`
    /// for a transparent source and `src` for an opaque one (a partly
    /// transparent source needs the fractional formula, and gives `None`);
    /// additive blending adds the channels, saturating, with an opaque
    /// result; multiplicative blending multiplies them, scaled by 255.
    pub fn blend_colors_exact(&self, src: Color, dst: Color) -> (r: Option<Color>)
        ensures
            r == match self.current_blend_mode {
                BlendMode::NoBlend => Some(src),
                BlendMode::Alpha => if src.a == 0 {
                    Some(dst)
                } else if src.a == 255 {
                    Some(src)
                } else {
                    None
                },
                BlendMode::Additive => Some(
                    Color {
                        r: if src.r + dst.r > 255 { 255 } else { (src.r + dst.r) as u8 },
                        g: if src.g + dst.g > 255 { 255 } else { (src.g + dst.g) as u8 },
                        b: if src.b + dst.b > 255 { 255 } else { (src.b + dst.b) as u8 },
                        a: 255,
                    },
                ),
                BlendMode::Multiply => Some(
                    Color {
                        r: (src.r * dst.r / 255) as u8,
                        g: (src.g * dst.g / 255) as u8,
                        b: (src.b * dst.b / 255) as u8,
                        a: (src.a * dst.a / 255) as u8,
                    },
                ),
            },
    {
        match self.current_blend_mode {
            BlendMode::NoBlend => Some(src),
            BlendMode::Alpha => {
                if src.a == 0 {
                    Some(dst)
                } else if src.a == 255 {
                    Some(src)
                } else {
                    None
                }
            },
            BlendMode::Additive => {
                let sum_a = src.a.saturating_add(dst.a);
                let a: u8 = if 255u8 >= sum_a { 255 } else { sum_a };
                Some(Color {
                    r: src.r.saturating_add(dst.r),
                    g: src.g.saturating_add(dst.g),
                    b: src.b.saturating_add(dst.b),
                    a,
                })
            },
            BlendMode::Multiply => {
                assert(src.r * dst.r <= 255 * 255) by (nonlinear_arith)
                    requires
                        src.r <= 255,
                        dst.r <= 255,
                ;
                assert(src.g * dst.g <= 255 * 255) by (nonlinear_arith)
                    requires
                        src.g <= 255,
                        dst.g <= 255,
                ;
                assert(src.b * dst.b <= 255 * 255) by (nonlinear_arith)
                    requires
                        src.b <= 255,
                        dst.b <= 255,
                ;
                assert(src.a * dst.a <= 255 * 255) by (nonlinear_arith)
                    requires
                        src.a <= 255,
                        dst.a <= 255,
                ;
                Some(Color {
                    r: ((src.r as u16 * dst.r as u16) / 255) as u8,
                    g: ((src.g as u16 * dst.g as u16) / 255) as u8,
                    b: ((src.b as u16 * dst.b as u16) / 255) as u8,
                    a: ((src.a as u16 * dst.a as u16) / 255) as u8,
                })
            },
        }
    }

    /// The position of the first texture with this id.
    fn texture_position(&self, texture_id: u32) -> (r: Option<usize>)
        ensures
            match r {
                Some(k) => texture_index(self.textures@, texture_id) == Some(k as int) && k < self.textures@.len(),
                None => texture_index(self.textures@, texture_id) is None,
            },
    {
        let mut k: usize = 0;
        while k < self.textures.len()
            invariant
                0 <= k <= self.textures@.len(),
                forall|m: int| 0 <= m < k ==> self.textures@[m].id != texture_id,
            decreases self.textures@.len() - k,
        {
            if self.textures[k].id == texture_id {
                let ghost ts = self.textures@;
                proof {
                    let c = choose|c: int| 0 <= c < ts.len() && ts[c].id == texture_id
                        && forall|m: int| 0 <= m < c ==> ts[m].id != texture_id;
                    if c < k {
                        assert(ts[c].id != texture_id);
                    } else if k < c {
                        assert(ts[k as int].id != texture_id);
                    }
                }
                return Some(k);
            }
            k += 1;
        }
        None
    }

    /// Width, height and format of the first texture with this id.
    fn texture_info(&self, texture_id: u32) -> (r: Option<(u32, u32, TextureFormat)>)
        ensures
            r is None <==> texture_index(self.textures@, texture_id) is None,
    {
        let mut k: usize = 0;
        while k < self.textures.len()
            invariant
                0 <= k <= self.textures@.len(),
                forall|m: int| 0 <= m < k ==> self.textures@[m].id != texture_id,
            decreases self.textures@.len() - k,
        {
            if self.textures[k].id == texture_id {
                let t = &self.textures[k];
                assert(0 <= k < self.textures@.len() && self.textures@[k as int].id == texture_id
                    && forall|m: int| 0 <= m < k ==> self.textures@[m].id != texture_id);
                return Some((t.width, t.height, t.format));
            }
            k += 1;
        }
        None
    }

    /// The decisions of drawing a texture into `dst_rect`: nothing to do
    /// where the rectangle is off the screen or the GPU draws it; else the
    /// renderer's record of the texture and the GPU's copy of its bytes,
    /// for a software fallback to scale into the rectangle.
    pub fn texture_draw_plan(&mut self, texture_id: u32, dst_rect: Rect) -> (r: Result<Option<TextureBlit>, RendererError>)
        requires
            old(self).wf(),
            draw_rect_in_range(dst_rect),
        ensures
            final(self).wf(),
            final(self).textures@ == old(self).textures@,
            final(self).clip_rect == old(self).clip_rect,
            draw_rect_of(dst_rect, old(self).width, old(self).height, old(self).clip_rect) is None ==> r matches Ok(
                None,
            ),
            (draw_rect_of(dst_rect, old(self).width, old(self).height, old(self).clip_rect) matches Some(d)
                && d.width > 0 && d.height > 0 && old(self).is_gpu_hardware_available && old(self).gpu.is_initialized())
                ==> (r matches Ok(None) && final(self).gpu == old(self).gpu),
            (draw_rect_of(dst_rect, old(self).width, old(self).height, old(self).clip_rect) is Some
                && !(old(self).is_gpu_hardware_available && old(self).gpu.is_initialized())
                && texture_index(old(self).textures@, texture_id) is None) ==> r matches Err(
                RendererError::ResourceNotFound(_),
            ),
            r matches Ok(Some(b)) ==> draw_rect_of(dst_rect, old(self).width, old(self).height, old(self).clip_rect)
                == Some(b.dst) && texture_index(old(self).textures@, texture_id) is Some,
    {
        let final_dst_rect = match self.get_draw_rect(dst_rect) {
            Some(r) => r,
            None => return Ok(None),
        };
        if final_dst_rect.width == 0 || final_dst_rect.height == 0 {
            return Ok(None);
        }
        if self.is_gpu_hardware_available {
            if gpu::draw_texture(
                &mut self.gpu,
                texture_id,
                final_dst_rect.x,
                final_dst_rect.y,
                final_dst_rect.width,
                final_dst_rect.height,
            ).is_ok() {
                return Ok(None);
            }
        }
        let (tex_w, tex_h, tex_fmt) = match self.texture_info(texture_id) {
            Some(info) => info,
            None => {
                return Err(RendererError::ResourceNotFound(id_message("Texture ID ", texture_id, " not found")));
            },
        };
        if tex_w == 0 || tex_h == 0 {
            return Err(RendererError::InvalidParameters(crate::text::string_from_str("Texture has zero dimension")));
        }
        if !self.is_gpu_hardware_available && !self.using_gpu_provided_framebuffer {
            return Err(
                RendererError::DrawingFailed(
                    crate::text::string_from_str("Cannot get texture data for software rendering without GPU context"),
                ),
            );
        }
        match gpu::get_texture_data(&self.gpu, texture_id) {
            Ok(data) => Ok(Some(TextureBlit { dst: final_dst_rect, tex_width: tex_w, tex_height: tex_h, format: tex_fmt, data })),
            Err(e) => Err(RendererError::DrawingFailed(gpu_error_message("Failed to get texture data for SW fallback: ", e))),
        }
    }
}

} // verus!
