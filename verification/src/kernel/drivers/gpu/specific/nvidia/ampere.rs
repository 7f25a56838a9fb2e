//! The driver for NVIDIA Ampere cards (RTX 30 series).

use vstd::prelude::*;
use crate::kernel::drivers::gpu::{DisplayMode, Feature, GpuError, GpuInfo, feature_bits};
use crate::kernel::drivers::gpu::pci::PciDevice;
use crate::kernel::drivers::gpu::specific::GpuDevice;
use crate::kernel::drivers::gpu::specific::nvidia::common;

verus! {

/// Texture information
pub struct TextureInfo {
    pub id: u32,
    pub width: u32,
    pub height: u32,
    pub format: u32,
    pub address: usize,
    pub size: usize,
    pub data: Vec<u8>,
}

/// NVIDIA Ampere GPU device
pub struct AmpereGpu {
    pub vendor_id: u16,
    pub device_id: u16,
    /// Memory-mapped registers
    pub mmio_base: usize,
    pub mmio_size: usize,
    pub framebuffer: usize,
    pub framebuffer_size: usize,
    pub pitch: u32,
    pub width: u32,
    pub height: u32,
    pub bpp: u8,
    pub clip_x: i32,
    pub clip_y: i32,
    pub clip_width: u32,
    pub clip_height: u32,
    pub clip_enabled: bool,
    pub blend_mode: u32,
    pub next_texture_id: u32,
    pub textures: Vec<TextureInfo>,
    pub acceleration_enabled: bool,
    pub gpu_model: &'static str,
    pub vram_type: &'static str,
}

/// The model name and video memory of an Ampere card by device id.
pub open spec fn ampere_model(device_id: u16) -> (Seq<char>, u64) {
    if device_id == 0x2204 {
        ("RTX 3090"@, (24 * 1024 * 1024 * 1024) as u64)
    } else if device_id == 0x2206 {
        ("RTX 3080"@, (10 * 1024 * 1024 * 1024) as u64)
    } else if device_id == 0x2208 {
        ("RTX 3070"@, (8 * 1024 * 1024 * 1024) as u64)
    } else if device_id == 0x220A {
        ("RTX 3060"@, (12 * 1024 * 1024 * 1024) as u64)
    } else {
        ("Ampere GPU"@, (8 * 1024 * 1024 * 1024) as u64)
    }
}

/// The features an Ampere card reports: 2D acceleration, blending,
/// hardware cursor, memory mapping, 3D, shaders, render targets and DMA.
pub open spec fn ampere_features() -> u32 {
    (feature_bits(Feature::Acceleration2D) | feature_bits(Feature::Blending) | feature_bits(Feature::HardwareCursor)
        | feature_bits(Feature::MemoryMapping) | feature_bits(Feature::Rendering3D) | feature_bits(Feature::Shaders)
        | feature_bits(Feature::RenderTargets) | feature_bits(Feature::DmaTransfers)) as u32
}

/// The display modes an Ampere card lists.
pub open spec fn ampere_modes() -> Seq<DisplayMode> {
    seq![
        DisplayMode { width: 3840, height: 2160, bpp: 32, refresh_rate: 144 },
        DisplayMode { width: 2560, height: 1440, bpp: 32, refresh_rate: 165 },
        DisplayMode { width: 1920, height: 1080, bpp: 32, refresh_rate: 240 },
        DisplayMode { width: 1280, height: 720, bpp: 32, refresh_rate: 360 },
    ]
}

/// A new Ampere driver for `device`: registers from BAR0 (32 MB), the
/// framebuffer from BAR1, the model and memory of its device id, a
/// 1920x1080x32 mode, no clipping and no texture.
pub open spec fn fresh_ampere(g: AmpereGpu, device: PciDevice) -> bool {
    &&& g.vendor_id == device.vendor_id
    &&& g.device_id == device.device_id
    &&& g.mmio_base == (device.bar0 & 0xFFFFFFF0) as usize
    &&& g.mmio_size == 32 * 1024 * 1024
    &&& g.framebuffer == (device.bar1 & 0xFFFFFFF0) as usize
    &&& g.gpu_model@ == ampere_model(device.device_id).0
    &&& g.framebuffer_size == ampere_model(device.device_id).1 as usize
    &&& g.pitch == 0
    &&& g.width == 1920 && g.height == 1080 && g.bpp == 32
    &&& g.clip_x == 0 && g.clip_y == 0 && g.clip_width == 0 && g.clip_height == 0 && !g.clip_enabled
    &&& g.blend_mode == 0
    &&& g.next_texture_id == 1
    &&& g.textures@.len() == 0
    &&& g.acceleration_enabled
    &&& g.vram_type@ == "GDDR6X"@
}

impl AmpereGpu {
    /// Create an Ampere GPU instance: registers from BAR0 (32 MB), the
    /// framebuffer from BAR1, the model and memory of its device id, a
    /// 1920x1080x32 mode, no clipping and no texture.
    pub fn new(device: &PciDevice) -> (r: Result<Self, GpuError>)
        ensures
            r matches Ok(g) && fresh_ampere(g, *device),
    {
        let mmio_base = (device.bar0 & 0xFFFFFFF0) as usize;
        let mmio_size: usize = 32 * 1024 * 1024;
        let _ = common::map_mmio(mmio_base, mmio_size);
        let (gpu_model, memory_bytes): (&'static str, u64) = match device.device_id {
            0x2204 => ("RTX 3090", 24 * 1024 * 1024 * 1024),
            0x2206 => ("RTX 3080", 10 * 1024 * 1024 * 1024),
            0x2208 => ("RTX 3070", 8 * 1024 * 1024 * 1024),
            0x220A => ("RTX 3060", 12 * 1024 * 1024 * 1024),
            _ => ("Ampere GPU", 8 * 1024 * 1024 * 1024),
        };
        let framebuffer = (device.bar1 & 0xFFFFFFF0) as usize;
        proof {
            reveal_strlit("GDDR6X");
        }
        let gpu = Self {
            vendor_id: device.vendor_id,
            device_id: device.device_id,
            mmio_base,
            mmio_size,
            framebuffer,
            framebuffer_size: memory_bytes as usize,
            pitch: 0,
            width: 1920,
            height: 1080,
            bpp: 32,
            clip_x: 0,
            clip_y: 0,
            clip_width: 0,
            clip_height: 0,
            clip_enabled: false,
            blend_mode: 0,
            next_texture_id: 1,
            textures: Vec::new(),
            acceleration_enabled: true,
            gpu_model,
            vram_type: "GDDR6X",
        };
        match gpu.initialize_hardware() {
            Ok(()) => {},
            Err(e) => {
                return Err(e);
            },
        }
        Ok(gpu)
    }

    /// Initialize GPU hardware: nothing to set up yet.
    pub fn initialize_hardware(&self) -> (r: Result<(), GpuError>)
        ensures
            r is Ok,
    {
        Ok(())
    }
}

impl GpuDevice for AmpereGpu {
    open spec fn well_formed(&self) -> bool {
        true
    }

    /// Each new texture takes the next id.
    open spec fn texture_defined(&self, width: u32, height: u32, format: u32) -> bool {
        self.next_texture_id < u32::MAX
    }

    /// A new width gives a pitch in 32 bits.
    open spec fn framebuffer_defined(&self, width: u32, height: u32) -> bool {
        (width != self.width || height != self.height) ==> width * (self.bpp / 8) <= u32::MAX
    }

    /// Report the card: NVIDIA, its model and memory, 32768-texel textures,
    /// its features and display modes.
    fn get_info(&self) -> (r: Result<GpuInfo, GpuError>)
        ensures
            r matches Ok(i) && {
                &&& i.vendor@ == "NVIDIA"@
                &&& i.device@ == self.gpu_model@
                &&& i.vram_size == self.framebuffer_size
                &&& i.max_texture_size == 32768
                &&& i.features == ampere_features()
                &&& i.current_mode == (DisplayMode {
                    width: self.width,
                    height: self.height,
                    bpp: self.bpp,
                    refresh_rate: 60,
                })
                &&& i.available_modes@ == ampere_modes()
            },
    {
        let modes = vec![
            DisplayMode { width: 3840, height: 2160, bpp: 32, refresh_rate: 144 },
            DisplayMode { width: 2560, height: 1440, bpp: 32, refresh_rate: 165 },
            DisplayMode { width: 1920, height: 1080, bpp: 32, refresh_rate: 240 },
            DisplayMode { width: 1280, height: 720, bpp: 32, refresh_rate: 360 },
        ];
        assert(modes@ =~= ampere_modes());
        let current_mode = DisplayMode { width: self.width, height: self.height, bpp: self.bpp, refresh_rate: 60 };
        proof {
            reveal_strlit("NVIDIA");
        }
        Ok(
            GpuInfo {
                vendor: "NVIDIA",
                device: self.gpu_model,
                vram_size: self.framebuffer_size,
                max_texture_size: 32768,
                features: (Feature::Acceleration2D.bits() | Feature::Blending.bits() | Feature::HardwareCursor.bits()
                    | Feature::MemoryMapping.bits() | Feature::Rendering3D.bits() | Feature::Shaders.bits()
                    | Feature::RenderTargets.bits() | Feature::DmaTransfers.bits()) as u32,
                current_mode,
                available_modes: modes,
            },
        )
    }

    /// The framebuffer address; a new size switches the mode, with the pitch
    /// following the width.
    fn get_framebuffer(&mut self, width: u32, height: u32) -> (r: Result<usize, GpuError>)
        ensures
            r == Ok::<usize, GpuError>(old(self).framebuffer),
            (width != old(self).width || height != old(self).height) ==> *final(self) == (AmpereGpu {
                width,
                height,
                pitch: (width * (old(self).bpp / 8)) as u32,
                ..*old(self)
            }),
            width == old(self).width && height == old(self).height ==> *final(self) == *old(self),
    {
        if width != self.width || height != self.height {
            self.width = width;
            self.height = height;
            self.pitch = width * (self.bpp as u32 / 8);
        }
        Ok(self.framebuffer)
    }

    fn get_framebuffer_pitch(&self) -> (r: Result<u32, GpuError>)
        ensures
            r == Ok::<u32, GpuError>(self.pitch),
    {
        Ok(self.pitch)
    }

    fn clear(&mut self, color: u32) -> (r: Result<(), GpuError>)
        ensures
            r is Ok,
            *final(self) == *old(self),
    {
        Ok(())
    }

    fn fill_rect(&mut self, x: i32, y: i32, width: u32, height: u32, color: u32) -> (r: Result<(), GpuError>)
        ensures
            r is Ok,
            *final(self) == *old(self),
    {
        Ok(())
    }

    fn draw_line(&mut self, x1: i32, y1: i32, x2: i32, y2: i32, color: u32) -> (r: Result<(), GpuError>)
        ensures
            r is Ok,
            *final(self) == *old(self),
    {
        Ok(())
    }

    /// Hand out the next texture id; the texels are not kept.
    fn create_texture(&mut self, width: u32, height: u32, format: u32, data: &[u8]) -> (r: Result<u32, GpuError>)
        ensures
            r == Ok::<u32, GpuError>(old(self).next_texture_id),
            *final(self) == (AmpereGpu { next_texture_id: (old(self).next_texture_id + 1) as u32, ..*old(self) }),
    {
        let id = self.next_texture_id;
        self.next_texture_id += 1;
        Ok(id)
    }

    fn destroy_texture(&mut self, texture_id: u32) -> (r: Result<(), GpuError>)
        ensures
            r is Ok,
            *final(self) == *old(self),
    {
        Ok(())
    }

    /// No texels are kept, so there are none to give.
    fn get_texture_data(&self, texture_id: u32) -> (r: Result<&[u8], GpuError>)
        ensures
            r == Err::<&[u8], GpuError>(GpuError::InvalidTexture),
    {
        Err(GpuError::InvalidTexture)
    }

    fn draw_texture(&mut self, texture_id: u32, x: i32, y: i32, width: u32, height: u32) -> (r: Result<(), GpuError>)
        ensures
            r is Ok,
            *final(self) == *old(self),
    {
        Ok(())
    }

    /// Store and enable the clipping rectangle.
    fn set_clip_rect(&mut self, x: i32, y: i32, width: u32, height: u32) -> (r: Result<(), GpuError>)
        ensures
            r is Ok,
            *final(self) == (AmpereGpu {
                clip_x: x,
                clip_y: y,
                clip_width: width,
                clip_height: height,
                clip_enabled: true,
                ..*old(self)
            }),
    {
        self.clip_x = x;
        self.clip_y = y;
        self.clip_width = width;
        self.clip_height = height;
        self.clip_enabled = true;
        Ok(())
    }

    /// Disable clipping.
    fn clear_clip_rect(&mut self) -> (r: Result<(), GpuError>)
        ensures
            r is Ok,
            *final(self) == (AmpereGpu { clip_enabled: false, ..*old(self) }),
    {
        self.clip_enabled = false;
        Ok(())
    }

    /// Set the blend mode: 0 to 3.
    fn set_blend_mode(&mut self, mode: u32) -> (r: Result<(), GpuError>)
        ensures
            mode > 3 ==> r == Err::<(), GpuError>(GpuError::InvalidParameter) && *final(self) == *old(self),
            mode <= 3 ==> r == Ok::<(), GpuError>(()) && *final(self) == (AmpereGpu { blend_mode: mode, ..*old(self) }),
    {
        if mode > 3 {
            return Err(GpuError::InvalidParameter);
        }
        self.blend_mode = mode;
        Ok(())
    }

    fn present(&mut self) -> (r: Result<(), GpuError>)
        ensures
            r is Ok,
            *final(self) == *old(self),
    {
        Ok(())
    }

    /// Shut down: the textures are dropped (the registers are unmapped).
    fn shutdown(&mut self) -> (r: Result<(), GpuError>)
        ensures
            r is Ok,
            final(self).textures@.len() == 0,
            final(self).next_texture_id == old(self).next_texture_id,
    {
        self.textures.clear();
        let _ = common::unmap_mmio(self.mmio_base, self.mmio_size);
        Ok(())
    }
}

/// Create an NVIDIA Ampere driver for the specified PCI device
pub fn create_driver(device: &PciDevice) -> (r: Result<AmpereGpu, GpuError>)
    ensures
        r matches Ok(g) && fresh_ampere(g, *device),
{
    AmpereGpu::new(device)
}

} // verus!
