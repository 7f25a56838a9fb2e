//! GPU driver subsystem: the device found at start-up behind one API for
//! drawing, textures, clipping and presenting frames.

pub mod common;
pub mod pci;
pub mod specific;
pub mod vesa;
pub mod detection;

use vstd::prelude::*;
use self::specific::GpuDevice;
use self::detection::DetectedGpu;
use self::specific::nvidia::NvidiaDriver;
use self::specific::nvidia::ampere::{AmpereGpu, ampere_features, ampere_modes, fresh_ampere};

verus! {

/// GPU capabilities and information
#[derive(Debug, Clone)]
pub struct GpuInfo {
    /// GPU vendor name
    pub vendor: &'static str,
    /// GPU device name
    pub device: &'static str,
    /// Total video memory in bytes
    pub vram_size: usize,
    /// Maximum texture dimensions
    pub max_texture_size: u32,
    /// Supported features bitmap
    pub features: u32,
    /// Current display mode
    pub current_mode: DisplayMode,
    /// Available display modes
    pub available_modes: Vec<DisplayMode>,
}

/// Display mode information
#[derive(Debug, Clone, Copy, PartialEq, Eq, Structural)]
pub struct DisplayMode {
    /// Width in pixels
    pub width: u32,
    /// Height in pixels
    pub height: u32,
    /// Bits per pixel
    pub bpp: u8,
    /// Refresh rate (Hz)
    pub refresh_rate: u16,
}

/// GPU feature flags; `bits` gives each one's flag.
#[derive(Debug, Clone, Copy, PartialEq, Eq, Structural)]
pub enum Feature {
    Blending,
    Acceleration2D,
    Rendering3D,
    Shaders,
    RenderTargets,
    HardwareCursor,
    MemoryMapping,
    DmaTransfers,
    TextureCompression,
    VariableRefreshRate,
    VariableRefresh,
    TensorAcceleration,
    RayTracing,
    VideoAcceleration,
    ComputeAcceleration,
    DisplayPort,
    HDMI,
    VSync,
    FreeSync,
    GSync,
    AdaptiveSync,
    VariableRateShading,
    MeshShading,
    SamplerFeedback,
    TextureFiltering,
    TextureArray,
    TextureAtlas,
    ComputeShaders,
    GeometryShaders,
    TessellationShaders,
    ComputeUnits,
    RayTracingCores,
    TensorCores,
    VideoCodecs,
}

/// The flag of each feature: one bit, from 0x01 for blending up to
/// 0x200000000 for video codecs.
pub open spec fn feature_bits(f: Feature) -> u64 {
    match f {
        Feature::Blending => 0x01,
        Feature::Acceleration2D => 0x02,
        Feature::Rendering3D => 0x04,
        Feature::Shaders => 0x08,
        Feature::RenderTargets => 0x10,
        Feature::HardwareCursor => 0x20,
        Feature::MemoryMapping => 0x40,
        Feature::DmaTransfers => 0x80,
        Feature::TextureCompression => 0x100,
        Feature::VariableRefreshRate => 0x200,
        Feature::VariableRefresh => 0x400,
        Feature::TensorAcceleration => 0x800,
        Feature::RayTracing => 0x1000,
        Feature::VideoAcceleration => 0x2000,
        Feature::ComputeAcceleration => 0x4000,
        Feature::DisplayPort => 0x8000,
        Feature::HDMI => 0x10000,
        Feature::VSync => 0x20000,
        Feature::FreeSync => 0x40000,
        Feature::GSync => 0x80000,
        Feature::AdaptiveSync => 0x100000,
        Feature::VariableRateShading => 0x200000,
        Feature::MeshShading => 0x400000,
        Feature::SamplerFeedback => 0x800000,
        Feature::TextureFiltering => 0x1000000,
        Feature::TextureArray => 0x2000000,
        Feature::TextureAtlas => 0x4000000,
        Feature::ComputeShaders => 0x8000000,
        Feature::GeometryShaders => 0x10000000,
        Feature::TessellationShaders => 0x20000000,
        Feature::ComputeUnits => 0x40000000,
        Feature::RayTracingCores => 0x80000000,
        Feature::TensorCores => 0x100000000,
        Feature::VideoCodecs => 0x200000000,
    }
}

impl Feature {
    /// The feature's flag.
    pub fn bits(self) -> (b: u64)
        ensures
            b == feature_bits(self),
    {
        match self {
            Feature::Blending => 0x01,
            Feature::Acceleration2D => 0x02,
            Feature::Rendering3D => 0x04,
            Feature::Shaders => 0x08,
            Feature::RenderTargets => 0x10,
            Feature::HardwareCursor => 0x20,
            Feature::MemoryMapping => 0x40,
            Feature::DmaTransfers => 0x80,
            Feature::TextureCompression => 0x100,
            Feature::VariableRefreshRate => 0x200,
            Feature::VariableRefresh => 0x400,
            Feature::TensorAcceleration => 0x800,
            Feature::RayTracing => 0x1000,
            Feature::VideoAcceleration => 0x2000,
            Feature::ComputeAcceleration => 0x4000,
            Feature::DisplayPort => 0x8000,
            Feature::HDMI => 0x10000,
            Feature::VSync => 0x20000,
            Feature::FreeSync => 0x40000,
            Feature::GSync => 0x80000,
            Feature::AdaptiveSync => 0x100000,
            Feature::VariableRateShading => 0x200000,
            Feature::MeshShading => 0x400000,
            Feature::SamplerFeedback => 0x800000,
            Feature::TextureFiltering => 0x1000000,
            Feature::TextureArray => 0x2000000,
            Feature::TextureAtlas => 0x4000000,
            Feature::ComputeShaders => 0x8000000,
            Feature::GeometryShaders => 0x10000000,
            Feature::TessellationShaders => 0x20000000,
            Feature::ComputeUnits => 0x40000000,
            Feature::RayTracingCores => 0x80000000,
            Feature::TensorCores => 0x100000000,
            Feature::VideoCodecs => 0x200000000,
        }
    }
}

/// GPU texture formats; `code` gives each one's number.
#[derive(Debug, Clone, Copy, PartialEq, Eq, Structural)]
pub enum TextureFormat {
    RGBA8,
    RGB8,
    BGRA8,
    BGR8,
    A8,
}

impl TextureFormat {
    /// The format's number: 0 to 4 in declaration order.
    pub fn code(self) -> (c: u32)
        ensures
            c == match self {
                TextureFormat::RGBA8 => 0u32,
                TextureFormat::RGB8 => 1u32,
                TextureFormat::BGRA8 => 2u32,
                TextureFormat::BGR8 => 3u32,
                TextureFormat::A8 => 4u32,
            },
    {
        match self {
            TextureFormat::RGBA8 => 0,
            TextureFormat::RGB8 => 1,
            TextureFormat::BGRA8 => 2,
            TextureFormat::BGR8 => 3,
            TextureFormat::A8 => 4,
        }
    }
}

/// GPU blend modes; `code` gives each one's number.
#[derive(Debug, Clone, Copy, PartialEq, Eq, Structural)]
pub enum BlendMode {
    NoBlend,
    Alpha,
    Additive,
    Multiply,
}

impl BlendMode {
    /// The mode's number: 0 to 3 in declaration order.
    pub fn code(self) -> (c: u32)
        ensures
            c == match self {
                BlendMode::NoBlend => 0u32,
                BlendMode::Alpha => 1u32,
                BlendMode::Additive => 2u32,
                BlendMode::Multiply => 3u32,
            },
    {
        match self {
            BlendMode::NoBlend => 0,
            BlendMode::Alpha => 1,
            BlendMode::Additive => 2,
            BlendMode::Multiply => 3,
        }
    }
}

/// GPU errors
#[derive(Debug, Clone, Copy, PartialEq, Eq, Structural)]
pub enum GpuError {
    /// No compatible GPU found
    NoDevice,
    /// Device initialization failed
    InitializationFailed,
    /// Invalid parameter
    InvalidParameter,
    /// Invalid device
    InvalidDevice,
    /// Unsupported feature
    UnsupportedFeature,
    /// Out of VRAM
    OutOfMemory,
    /// Invalid command
    InvalidCommand,
    /// Invalid texture
    InvalidTexture,
    /// Buffer mapping failed
    MappingFailed,
    NotSupported,
    NotInitialized,
    UnsupportedFormat,
    UnsupportedDevice,
    HardwareError,
    ShutdownFailed,
    TextureCreationFailed,
    SetModeFailed,
    DrawingFailed,
    CommunicationError,
    DisplayModeFailed,
    OperationFailed,
}

} // verus!

verus! {

/// The GPU subsystem: the device found by `init`, if it has run.
pub struct GpuSubsystem {
    device: Option<DetectedGpu>,
    initialized: bool,
}

impl GpuSubsystem {
    /// No device yet: every operation but `init` and `shutdown` answers
    /// `NoDevice`.
    pub fn new() -> (g: Self)
        ensures
            g.wf(),
            !g.is_initialized(),
    {
        GpuSubsystem { device: None, initialized: false }
    }

    /// A device is held exactly when the subsystem is initialized. It is the
    /// driver detection picks on this machine's bus: the Ampere driver of
    /// the RTX 3080 (see `detection::detect_gpu`).
    pub closed spec fn wf(&self) -> bool {
        &&& self.initialized == self.device.is_some()
        &&& match self.device {
            Some(DetectedGpu::Nvidia(NvidiaDriver::Ampere(_))) => true,
            Some(_) => false,
            None => true,
        }
    }

    pub closed spec fn is_initialized(&self) -> bool {
        self.initialized
    }

    /// The device, once initialized.
    pub closed spec fn driver(&self) -> AmpereGpu {
        self.device->Some_0->Nvidia_0->Ampere_0
    }

    /// The device, once initialized.
    pub fn device(&self) -> (d: Option<&AmpereGpu>)
        requires
            self.wf(),
        ensures
            d is Some <==> self.is_initialized(),
            d matches Some(x) ==> *x == self.driver(),
    {
        match &self.device {
            Some(DetectedGpu::Nvidia(NvidiaDriver::Ampere(g))) => Some(g),
            _ => None,
        }
    }
}

/// The two subsystems hold the same device apart from what `same` allows.
pub open spec fn changed_to(old_gpu: GpuSubsystem, new_gpu: GpuSubsystem, d: AmpereGpu) -> bool {
    &&& new_gpu.wf()
    &&& new_gpu.is_initialized() == old_gpu.is_initialized()
    &&& new_gpu.driver() == d
}

/// Two well-formed subsystems with the same device are the same.
pub proof fn lemma_same_device(a: GpuSubsystem, b: GpuSubsystem)
    requires
        a.wf(),
        b.wf(),
        a.is_initialized() == b.is_initialized(),
        a.is_initialized() ==> a.driver() == b.driver(),
    ensures
        a == b,
{
    if a.is_initialized() {
        assert(a.device == b.device);
    }
}

/// Initialize the GPU subsystem: detect the device and keep it; a second
/// call changes nothing. Where the device has no 2D acceleration the VESA
/// mode is set up as well; the Ampere driver has it.
pub fn init(gpu: &mut GpuSubsystem) -> (r: Result<(), GpuError>)
    requires
        old(gpu).wf(),
    ensures
        final(gpu).wf(),
        r is Ok,
        final(gpu).is_initialized(),
        old(gpu).is_initialized() ==> *final(gpu) == *old(gpu),
        !old(gpu).is_initialized() ==> fresh_ampere(final(gpu).driver(), pci::simulated_gpus()[0]),
{
    if gpu.initialized {
        return Ok(());
    }
    let device = match detection::detect_gpu() {
        Ok(d) => d,
        Err(_) => return Err(GpuError::NoDevice),
    };
    gpu.device = Some(device);
    gpu.initialized = true;
    proof {
        assert((ampere_features() & (feature_bits(Feature::Acceleration2D) as u32)) != 0) by (bit_vector);
    }
    if !supports_feature(gpu, Feature::Acceleration2D)? {
        vesa::init()?;
    }
    Ok(())
}

/// Shut down the GPU subsystem: the device shuts down and is dropped.
pub fn shutdown(gpu: &mut GpuSubsystem) -> (r: Result<(), GpuError>)
    requires
        old(gpu).wf(),
    ensures
        final(gpu).wf(),
        r is Ok,
        !final(gpu).is_initialized(),
{
    if !gpu.initialized {
        return Ok(());
    }
    match &mut gpu.device {
        Some(DetectedGpu::Nvidia(NvidiaDriver::Ampere(device))) => {
            device.shutdown()?;
        },
        _ => {},
    }
    gpu.device = None;
    gpu.initialized = false;
    Ok(())
}

/// Ensure GPU is initialized
fn ensure_initialized(gpu: &GpuSubsystem) -> (r: Result<(), GpuError>)
    ensures
        r == if gpu.is_initialized() { Ok::<(), GpuError>(()) } else { Err(GpuError::NoDevice) },
{
    if !gpu.initialized {
        Err(GpuError::NoDevice)
    } else {
        Ok(())
    }
}

/// What the device reports: NVIDIA, its model and memory, 32768-texel
/// textures, its features, its current mode at 60 Hz and its mode list.
pub open spec fn ampere_info(d: AmpereGpu, i: GpuInfo) -> bool {
    &&& i.vendor@ == "NVIDIA"@
    &&& i.device@ == d.gpu_model@
    &&& i.vram_size == d.framebuffer_size
    &&& i.max_texture_size == 32768
    &&& i.features == ampere_features()
    &&& i.current_mode == (DisplayMode { width: d.width, height: d.height, bpp: d.bpp, refresh_rate: 60 })
    &&& i.available_modes@ == ampere_modes()
}

/// Get information about the GPU
pub fn get_info(gpu: &GpuSubsystem) -> (r: Result<GpuInfo, GpuError>)
    requires
        gpu.wf(),
    ensures
        !gpu.is_initialized() ==> r == Err::<GpuInfo, GpuError>(GpuError::NoDevice),
        gpu.is_initialized() ==> (r matches Ok(i) && ampere_info(gpu.driver(), i)),
{
    ensure_initialized(gpu)?;
    match &gpu.device {
        Some(DetectedGpu::Nvidia(NvidiaDriver::Ampere(device))) => device.get_info(),
        _ => Err(GpuError::NoDevice),
    }
}

/// The device after a framebuffer request of `width` by `height`: a new
/// size switches the mode, the pitch following the width.
pub open spec fn resized(d: AmpereGpu, width: u32, height: u32) -> AmpereGpu {
    if width != d.width || height != d.height {
        AmpereGpu { width, height, pitch: (width * (d.bpp / 8)) as u32, ..d }
    } else {
        d
    }
}

/// Get the framebuffer address
pub fn get_framebuffer(gpu: &mut GpuSubsystem, width: u32, height: u32) -> (r: Result<usize, GpuError>)
    requires
        old(gpu).wf(),
        old(gpu).is_initialized() ==> (width != old(gpu).driver().width || height != old(gpu).driver().height) ==> width
            * (old(gpu).driver().bpp / 8) <= u32::MAX,
    ensures
        !old(gpu).is_initialized() ==> r == Err::<usize, GpuError>(GpuError::NoDevice) && *final(gpu) == *old(gpu),
        old(gpu).is_initialized() ==> r == Ok::<usize, GpuError>(old(gpu).driver().framebuffer) && changed_to(
            *old(gpu),
            *final(gpu),
            resized(old(gpu).driver(), width, height),
        ),
        final(gpu).wf(),
{
    ensure_initialized(gpu)?;
    match &mut gpu.device {
        Some(DetectedGpu::Nvidia(NvidiaDriver::Ampere(device))) => device.get_framebuffer(width, height),
        _ => Err(GpuError::NoDevice),
    }
}

/// Get the framebuffer pitch (bytes per row)
pub fn get_framebuffer_pitch(gpu: &GpuSubsystem) -> (r: Result<u32, GpuError>)
    requires
        gpu.wf(),
    ensures
        r == if gpu.is_initialized() { Ok::<u32, GpuError>(gpu.driver().pitch) } else { Err(GpuError::NoDevice) },
{
    ensure_initialized(gpu)?;
    match &gpu.device {
        Some(DetectedGpu::Nvidia(NvidiaDriver::Ampere(device))) => device.get_framebuffer_pitch(),
        _ => Err(GpuError::NoDevice),
    }
}

/// An operation the device accepts and that changes nothing: `NoDevice`
/// before `init`, success after.
pub open spec fn accepted_unchanged(old_gpu: GpuSubsystem, new_gpu: GpuSubsystem, r: Result<(), GpuError>) -> bool {
    &&& new_gpu == old_gpu
    &&& old_gpu.is_initialized() ==> r is Ok
    &&& !old_gpu.is_initialized() ==> r == Err::<(), GpuError>(GpuError::NoDevice)
}

/// Clear the screen with the specified color: the Ampere driver draws
/// nothing itself.
pub fn clear(gpu: &mut GpuSubsystem, color: u32) -> (r: Result<(), GpuError>)
    requires
        old(gpu).wf(),
    ensures
        final(gpu).wf(),
        accepted_unchanged(*old(gpu), *final(gpu), r),
{
    if !gpu.initialized {
        return Err(GpuError::NoDevice);
    }
    let r = match &mut gpu.device {
        Some(DetectedGpu::Nvidia(NvidiaDriver::Ampere(device))) => device.clear(color),
        _ => Err(GpuError::NoDevice),
    };
    proof {
        lemma_same_device(*old(gpu), *gpu);
    }

    r
}

/// Draw a rectangle: the Ampere driver draws nothing itself.
pub fn fill_rect(gpu: &mut GpuSubsystem, x: i32, y: i32, width: u32, height: u32, color: u32) -> (r: Result<(), GpuError>)
    requires
        old(gpu).wf(),
        specific::rect_in_range(x, y, width, height),
    ensures
        final(gpu).wf(),
        accepted_unchanged(*old(gpu), *final(gpu), r),
{
    if !gpu.initialized {
        return Err(GpuError::NoDevice);
    }
    let r = match &mut gpu.device {
        Some(DetectedGpu::Nvidia(NvidiaDriver::Ampere(device))) => device.fill_rect(x, y, width, height, color),
        _ => Err(GpuError::NoDevice),
    };
    proof {
        lemma_same_device(*old(gpu), *gpu);
    }
    r
}

/// Draw a line: the Ampere driver draws nothing itself.
pub fn draw_line(gpu: &mut GpuSubsystem, x1: i32, y1: i32, x2: i32, y2: i32, color: u32) -> (r: Result<(), GpuError>)
    requires
        old(gpu).wf(),
        specific::line_in_range(x1, y1, x2, y2),
    ensures
        final(gpu).wf(),
        accepted_unchanged(*old(gpu), *final(gpu), r),
{
    if !gpu.initialized {
        return Err(GpuError::NoDevice);
    }
    let r = match &mut gpu.device {
        Some(DetectedGpu::Nvidia(NvidiaDriver::Ampere(device))) => device.draw_line(x1, y1, x2, y2, color),
        _ => Err(GpuError::NoDevice),
    };
    proof {
        lemma_same_device(*old(gpu), *gpu);
    }
    r
}

/// Create a texture: the device hands out its next texture id (the texels
/// are not kept).
pub fn create_texture(gpu: &mut GpuSubsystem, width: u32, height: u32, format: u32, data: &[u8]) -> (r: Result<u32, GpuError>)
    requires
        old(gpu).wf(),
        old(gpu).is_initialized() ==> old(gpu).driver().next_texture_id < u32::MAX,
    ensures
        final(gpu).wf(),
        !old(gpu).is_initialized() ==> r == Err::<u32, GpuError>(GpuError::NoDevice) && *final(gpu) == *old(gpu),
        old(gpu).is_initialized() ==> r == Ok::<u32, GpuError>(old(gpu).driver().next_texture_id) && changed_to(
            *old(gpu),
            *final(gpu),
            AmpereGpu { next_texture_id: (old(gpu).driver().next_texture_id + 1) as u32, ..old(gpu).driver() },
        ),
{
    ensure_initialized(gpu)?;
    match &mut gpu.device {
        Some(DetectedGpu::Nvidia(NvidiaDriver::Ampere(device))) => device.create_texture(width, height, format, data),
        _ => Err(GpuError::NoDevice),
    }
}

/// Destroy a texture: accepted, and nothing changes.
pub fn destroy_texture(gpu: &mut GpuSubsystem, texture_id: u32) -> (r: Result<(), GpuError>)
    requires
        old(gpu).wf(),
    ensures
        final(gpu).wf(),
        accepted_unchanged(*old(gpu), *final(gpu), r),
{
    if !gpu.initialized {
        return Err(GpuError::NoDevice);
    }
    let r = match &mut gpu.device {
        Some(DetectedGpu::Nvidia(NvidiaDriver::Ampere(device))) => device.destroy_texture(texture_id),
        _ => Err(GpuError::NoDevice),
    };
    proof {
        lemma_same_device(*old(gpu), *gpu);
    }
    r
}

/// Get a copy of a texture's data: the device keeps no texels, so it has
/// none to give (`InvalidTexture`).
pub fn get_texture_data(gpu: &GpuSubsystem, texture_id: u32) -> (r: Result<Vec<u8>, GpuError>)
    requires
        gpu.wf(),
    ensures
        r matches Err(e) && e == if gpu.is_initialized() { GpuError::InvalidTexture } else { GpuError::NoDevice },
{
    ensure_initialized(gpu)?;
    match &gpu.device {
        Some(DetectedGpu::Nvidia(NvidiaDriver::Ampere(device))) => match device.get_texture_data(texture_id) {
            Ok(data) => {
                let mut copy: Vec<u8> = Vec::new();
                let mut k: usize = 0;
                while k < data.len()
                    invariant
                        0 <= k <= data@.len(),
                    decreases data@.len() - k,
                {
                    copy.push(data[k]);
                    k += 1;
                }
                Ok(copy)
            },
            Err(e) => Err(e),
        },
        _ => Err(GpuError::NoDevice),
    }
}

/// Draw a texture: accepted, and nothing changes.
pub fn draw_texture(gpu: &mut GpuSubsystem, texture_id: u32, x: i32, y: i32, width: u32, height: u32) -> (r: Result<(), GpuError>)
    requires
        old(gpu).wf(),
    ensures
        final(gpu).wf(),
        accepted_unchanged(*old(gpu), *final(gpu), r),
{
    if !gpu.initialized {
        return Err(GpuError::NoDevice);
    }
    let r = match &mut gpu.device {
        Some(DetectedGpu::Nvidia(NvidiaDriver::Ampere(device))) => device.draw_texture(texture_id, x, y, width, height),
        _ => Err(GpuError::NoDevice),
    };
    proof {
        lemma_same_device(*old(gpu), *gpu);
    }
    r
}

/// Set the clipping rectangle: stored and enabled.
pub fn set_clip_rect(gpu: &mut GpuSubsystem, x: i32, y: i32, width: u32, height: u32) -> (r: Result<(), GpuError>)
    requires
        old(gpu).wf(),
    ensures
        final(gpu).wf(),
        !old(gpu).is_initialized() ==> r == Err::<(), GpuError>(GpuError::NoDevice) && *final(gpu) == *old(gpu),
        old(gpu).is_initialized() ==> r is Ok && changed_to(
            *old(gpu),
            *final(gpu),
            AmpereGpu {
                clip_x: x,
                clip_y: y,
                clip_width: width,
                clip_height: height,
                clip_enabled: true,
                ..old(gpu).driver()
            },
        ),
{
    ensure_initialized(gpu)?;
    match &mut gpu.device {
        Some(DetectedGpu::Nvidia(NvidiaDriver::Ampere(device))) => device.set_clip_rect(x, y, width, height),
        _ => Err(GpuError::NoDevice),
    }
}

/// Clear the clipping rectangle: clipping is disabled.
pub fn clear_clip_rect(gpu: &mut GpuSubsystem) -> (r: Result<(), GpuError>)
    requires
        old(gpu).wf(),
    ensures
        final(gpu).wf(),
        !old(gpu).is_initialized() ==> r == Err::<(), GpuError>(GpuError::NoDevice) && *final(gpu) == *old(gpu),
        old(gpu).is_initialized() ==> r is Ok && changed_to(
            *old(gpu),
            *final(gpu),
            AmpereGpu { clip_enabled: false, ..old(gpu).driver() },
        ),
{
    ensure_initialized(gpu)?;
    match &mut gpu.device {
        Some(DetectedGpu::Nvidia(NvidiaDriver::Ampere(device))) => device.clear_clip_rect(),
        _ => Err(GpuError::NoDevice),
    }
}

/// Set the blend mode: 0 to 3; any other is an invalid parameter.
pub fn set_blend_mode(gpu: &mut GpuSubsystem, mode: u32) -> (r: Result<(), GpuError>)
    requires
        old(gpu).wf(),
    ensures
        final(gpu).wf(),
        !old(gpu).is_initialized() ==> r == Err::<(), GpuError>(GpuError::NoDevice) && *final(gpu) == *old(gpu),
        old(gpu).is_initialized() && mode > 3 ==> r == Err::<(), GpuError>(GpuError::InvalidParameter) && *final(gpu)
            == *old(gpu),
        old(gpu).is_initialized() && mode <= 3 ==> r is Ok && changed_to(
            *old(gpu),
            *final(gpu),
            AmpereGpu { blend_mode: mode, ..old(gpu).driver() },
        ),
{
    ensure_initialized(gpu)?;
    match &mut gpu.device {
        Some(DetectedGpu::Nvidia(NvidiaDriver::Ampere(device))) => device.set_blend_mode(mode),
        _ => Err(GpuError::NoDevice),
    }
}

/// Present the frame to the screen: nothing to do.
pub fn present(gpu: &mut GpuSubsystem) -> (r: Result<(), GpuError>)
    requires
        old(gpu).wf(),
    ensures
        final(gpu).wf(),
        accepted_unchanged(*old(gpu), *final(gpu), r),
{
    if !gpu.initialized {
        return Err(GpuError::NoDevice);
    }
    let r = match &mut gpu.device {
        Some(DetectedGpu::Nvidia(NvidiaDriver::Ampere(device))) => device.present(),
        _ => Err(GpuError::NoDevice),
    };
    proof {
        lemma_same_device(*old(gpu), *gpu);
    }
    r
}

/// Check if a feature is supported: its flag, cut to 32 bits, is among the
/// device's features. The flags of `TensorCores` and `VideoCodecs` lie
/// beyond 32 bits, so they are never reported.
pub fn supports_feature(gpu: &GpuSubsystem, feature: Feature) -> (r: Result<bool, GpuError>)
    requires
        gpu.wf(),
    ensures
        r == if gpu.is_initialized() {
            Ok::<bool, GpuError>((ampere_features() & (feature_bits(feature) as u32)) != 0)
        } else {
            Err(GpuError::NoDevice)
        },
{
    ensure_initialized(gpu)?;
    match &gpu.device {
        Some(DetectedGpu::Nvidia(NvidiaDriver::Ampere(device))) => {
            let info = device.get_info()?;
            let flag = feature.bits() as u32;
            Ok((info.features & flag) != 0)
        },
        _ => Err(GpuError::NoDevice),
    }
}

/// Get maximum texture size
pub fn get_max_texture_size(gpu: &GpuSubsystem) -> (r: Result<u32, GpuError>)
    requires
        gpu.wf(),
    ensures
        r == if gpu.is_initialized() { Ok::<u32, GpuError>(32768) } else { Err(GpuError::NoDevice) },
{
    ensure_initialized(gpu)?;
    match &gpu.device {
        Some(DetectedGpu::Nvidia(NvidiaDriver::Ampere(device))) => {
            let info = device.get_info()?;
            Ok(info.max_texture_size)
        },
        _ => Err(GpuError::NoDevice),
    }
}

} // verus!
