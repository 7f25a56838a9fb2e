//! The driver for NVIDIA Turing cards (RTX 20 and GTX 16 series).

use vstd::prelude::*;
use crate::kernel::drivers::gpu::{DisplayMode, Feature, GpuError, GpuInfo, feature_bits};
use crate::kernel::drivers::gpu::pci::PciDevice;
use crate::kernel::drivers::gpu::specific::GpuDevice;

verus! {

/// The framebuffer address a Turing card reports.
pub const TURING_FRAMEBUFFER: usize = 0xD0000000;

/// An NVIDIA Turing GPU
pub struct TuringGpu {
    pub device_id: u32,
    pub vram_size: usize,
    pub core_count: u32,
    pub is_initialized: bool,
}

/// The name a Turing card reports by device id.
pub open spec fn turing_name(device_id: u32) -> Seq<char> {
    if device_id == 0x1E04 {
        "NVIDIA RTX 2080 Ti"@
    } else if device_id == 0x1E07 {
        "NVIDIA RTX 2080"@
    } else if device_id == 0x1E84 {
        "NVIDIA RTX 2070"@
    } else if device_id == 0x1E82 {
        "NVIDIA RTX 2060"@
    } else if device_id == 0x1F82 {
        "NVIDIA GTX 1650"@
    } else if device_id == 0x1F07 {
        "NVIDIA GTX 1660 Ti"@
    } else {
        "NVIDIA Turing GPU"@
    }
}

/// The features a Turing card reports: 2D acceleration, blending, hardware
/// cursor, memory mapping, 3D and DMA, with shaders and render targets for
/// the RTX range (device ids 0x1E00 to 0x1E8F).
pub open spec fn turing_features(device_id: u32) -> u32 {
    let base = (feature_bits(Feature::Acceleration2D) | feature_bits(Feature::Blending) | feature_bits(
        Feature::HardwareCursor,
    ) | feature_bits(Feature::MemoryMapping) | feature_bits(Feature::Rendering3D) | feature_bits(
        Feature::DmaTransfers,
    )) as u32;
    if 0x1E00 <= device_id <= 0x1E8F {
        base | (feature_bits(Feature::Shaders) as u32 | feature_bits(Feature::RenderTargets) as u32)
    } else {
        base
    }
}

/// The display modes a Turing card lists.
pub open spec fn turing_modes() -> Seq<DisplayMode> {
    seq![
        DisplayMode { width: 3840, height: 2160, bpp: 32, refresh_rate: 60 },
        DisplayMode { width: 2560, height: 1440, bpp: 32, refresh_rate: 144 },
        DisplayMode { width: 1920, height: 1080, bpp: 32, refresh_rate: 240 },
        DisplayMode { width: 1280, height: 720, bpp: 32, refresh_rate: 360 },
    ]
}

/// The result of an operation that only needs the card to be initialised.
pub open spec fn when_ready(g: TuringGpu) -> Result<(), GpuError> {
    if g.is_initialized {
        Ok(())
    } else {
        Err(GpuError::NotInitialized)
    }
}

/// Bytes per texel of a texture format: 4 for formats 0 and 2, 3 for 1 and
/// 3, 1 for 4.
pub open spec fn turing_texel(format: u32) -> u32 {
    if format == 0 || format == 2 {
        4
    } else if format == 1 || format == 3 {
        3
    } else {
        1
    }
}

impl TuringGpu {
    pub fn new(device_id: u32, vram_size: usize, core_count: u32) -> (g: Self)
        ensures
            g == (TuringGpu { device_id, vram_size, core_count, is_initialized: false }),
    {
        TuringGpu { device_id, vram_size, core_count, is_initialized: false }
    }

    /// Initialise the card.
    pub fn initialize(&mut self) -> (r: Result<(), GpuError>)
        ensures
            r is Ok,
            *final(self) == (TuringGpu { is_initialized: true, ..*old(self) }),
    {
        self.is_initialized = true;
        Ok(())
    }

    /// Configure the hardware (with RTX features or not): refused before
    /// initialisation.
    pub fn configure_hardware(&mut self, rtx_enabled: bool) -> (r: Result<(), GpuError>)
        ensures
            r == when_ready(*old(self)),
            *final(self) == *old(self),
    {
        if !self.is_initialized {
            return Err(GpuError::NotInitialized);
        }
        Ok(())
    }
}

impl GpuDevice for TuringGpu {
    open spec fn well_formed(&self) -> bool {
        true
    }

    /// A texture that passes the checks has its byte count in 32 bits.
    open spec fn texture_defined(&self, width: u32, height: u32, format: u32) -> bool {
        self.is_initialized && width != 0 && height != 0 && width <= 32768 && height <= 32768 && format <= 4
            ==> width * height * turing_texel(format) <= u32::MAX
    }

    open spec fn framebuffer_defined(&self, width: u32, height: u32) -> bool {
        true
    }

    /// Report the card: NVIDIA, its name, memory and features, a 1920x1080
    /// mode, and its display modes.
    fn get_info(&self) -> (r: Result<GpuInfo, GpuError>)
        ensures
            !self.is_initialized ==> r == Err::<GpuInfo, GpuError>(GpuError::NotInitialized),
            self.is_initialized ==> (r matches Ok(i) && {
                &&& i.vendor@ == "NVIDIA"@
                &&& i.device@ == turing_name(self.device_id)
                &&& i.vram_size == self.vram_size
                &&& i.max_texture_size == 32768
                &&& i.features == turing_features(self.device_id)
                &&& i.current_mode == (DisplayMode { width: 1920, height: 1080, bpp: 32, refresh_rate: 60 })
                &&& i.available_modes@ == turing_modes()
            }),
    {
        if !self.is_initialized {
            return Err(GpuError::NotInitialized);
        }
        let device_name = match self.device_id {
            0x1E04 => "NVIDIA RTX 2080 Ti",
            0x1E07 => "NVIDIA RTX 2080",
            0x1E84 => "NVIDIA RTX 2070",
            0x1E82 => "NVIDIA RTX 2060",
            0x1F82 => "NVIDIA GTX 1650",
            0x1F07 => "NVIDIA GTX 1660 Ti",
            _ => "NVIDIA Turing GPU",
        };
        let modes = vec![
            DisplayMode { width: 3840, height: 2160, bpp: 32, refresh_rate: 60 },
            DisplayMode { width: 2560, height: 1440, bpp: 32, refresh_rate: 144 },
            DisplayMode { width: 1920, height: 1080, bpp: 32, refresh_rate: 240 },
            DisplayMode { width: 1280, height: 720, bpp: 32, refresh_rate: 360 },
        ];
        assert(modes@ =~= turing_modes());
        let current_mode = DisplayMode { width: 1920, height: 1080, bpp: 32, refresh_rate: 60 };
        let mut features: u32 = (Feature::Acceleration2D.bits() | Feature::Blending.bits()
            | Feature::HardwareCursor.bits() | Feature::MemoryMapping.bits() | Feature::Rendering3D.bits()
            | Feature::DmaTransfers.bits()) as u32;
        if self.device_id >= 0x1E00 && self.device_id <= 0x1E8F {
            features = features | (Feature::Shaders.bits() as u32 | Feature::RenderTargets.bits() as u32);
        }
        proof {
            reveal_strlit("NVIDIA");
        }
        Ok(
            GpuInfo {
                vendor: "NVIDIA",
                device: device_name,
                vram_size: self.vram_size,
                max_texture_size: 32768,
                features,
                current_mode,
                available_modes: modes,
            },
        )
    }

    /// The fixed framebuffer address, whatever the size asked for.
    fn get_framebuffer(&mut self, width: u32, height: u32) -> (r: Result<usize, GpuError>)
        ensures
            r == if old(self).is_initialized {
                Ok::<usize, GpuError>(TURING_FRAMEBUFFER)
            } else {
                Err(GpuError::NotInitialized)
            },
            *final(self) == *old(self),
    {
        if !self.is_initialized {
            return Err(GpuError::NotInitialized);
        }
        Ok(TURING_FRAMEBUFFER)
    }

    /// The pitch of a 1920-pixel, 4-byte row, rounded up to 128 bytes.
    fn get_framebuffer_pitch(&self) -> (r: Result<u32, GpuError>)
        ensures
            r == if self.is_initialized {
                Ok::<u32, GpuError>(((1920 * 4 + 127) / 128 * 128) as u32)
            } else {
                Err(GpuError::NotInitialized)
            },
    {
        if !self.is_initialized {
            return Err(GpuError::NotInitialized);
        }
        let width: u32 = 1920;
        let bytes_per_pixel: u32 = 4;
        let pitch = ((width * bytes_per_pixel + 127) / 128) * 128;
        Ok(pitch)
    }

    fn clear(&mut self, color: u32) -> (r: Result<(), GpuError>)
        ensures
            r == when_ready(*old(self)),
            *final(self) == *old(self),
    {
        if !self.is_initialized {
            return Err(GpuError::NotInitialized);
        }
        Ok(())
    }

    fn fill_rect(&mut self, x: i32, y: i32, width: u32, height: u32, color: u32) -> (r: Result<(), GpuError>)
        ensures
            r == when_ready(*old(self)),
            *final(self) == *old(self),
    {
        if !self.is_initialized {
            return Err(GpuError::NotInitialized);
        }
        if width == 0 || height == 0 {
            return Ok(());
        }
        Ok(())
    }

    fn draw_line(&mut self, x1: i32, y1: i32, x2: i32, y2: i32, color: u32) -> (r: Result<(), GpuError>)
        ensures
            r == when_ready(*old(self)),
            *final(self) == *old(self),
    {
        if !self.is_initialized {
            return Err(GpuError::NotInitialized);
        }
        Ok(())
    }

    /// Check a texture (size 1 to 32768 each way, format 0 to 4, enough
    /// bytes) and hand out id 1; nothing is kept.
    fn create_texture(&mut self, width: u32, height: u32, format: u32, data: &[u8]) -> (r: Result<u32, GpuError>)
        ensures
            r == if !old(self).is_initialized {
                Err::<u32, GpuError>(GpuError::NotInitialized)
            } else if width == 0 || height == 0 || width > 32768 || height > 32768 {
                Err(GpuError::InvalidParameter)
            } else if format > 4 {
                Err(GpuError::UnsupportedFormat)
            } else if data@.len() < width * height * turing_texel(format) {
                Err(GpuError::InvalidParameter)
            } else {
                Ok(1)
            },
            *final(self) == *old(self),
    {
        if !self.is_initialized {
            return Err(GpuError::NotInitialized);
        }
        if width == 0 || height == 0 || width > 32768 || height > 32768 {
            return Err(GpuError::InvalidParameter);
        }
        if format > 4 {
            return Err(GpuError::UnsupportedFormat);
        }
        let bytes_per_pixel: u32 = match format {
            0 | 2 => 4,
            1 | 3 => 3,
            4 => 1,
            _ => {
                return Err(GpuError::UnsupportedFormat);
            },
        };
        assert(width * height <= u32::MAX) by (nonlinear_arith)
            requires
                width * height * bytes_per_pixel <= u32::MAX,
                bytes_per_pixel >= 1,
        ;
        let expected_size = (width * height * bytes_per_pixel) as usize;
        if data.len() < expected_size {
            return Err(GpuError::InvalidParameter);
        }
        let texture_id: u32 = 1;
        Ok(texture_id)
    }

    fn destroy_texture(&mut self, texture_id: u32) -> (r: Result<(), GpuError>)
        ensures
            r == when_ready(*old(self)),
            *final(self) == *old(self),
    {
        if !self.is_initialized {
            return Err(GpuError::NotInitialized);
        }
        Ok(())
    }

    /// No texels are kept, so there are none to give.
    fn get_texture_data(&self, texture_id: u32) -> (r: Result<&[u8], GpuError>)
        ensures
            r == if self.is_initialized {
                Err::<&[u8], GpuError>(GpuError::InvalidTexture)
            } else {
                Err(GpuError::NotInitialized)
            },
    {
        if !self.is_initialized {
            return Err(GpuError::NotInitialized);
        }
        Err(GpuError::InvalidTexture)
    }

    fn draw_texture(&mut self, texture_id: u32, x: i32, y: i32, width: u32, height: u32) -> (r: Result<(), GpuError>)
        ensures
            r == when_ready(*old(self)),
            *final(self) == *old(self),
    {
        if !self.is_initialized {
            return Err(GpuError::NotInitialized);
        }
        if width == 0 || height == 0 {
            return Ok(());
        }
        Ok(())
    }

    fn set_clip_rect(&mut self, x: i32, y: i32, width: u32, height: u32) -> (r: Result<(), GpuError>)
        ensures
            r == when_ready(*old(self)),
            *final(self) == *old(self),
    {
        if !self.is_initialized {
            return Err(GpuError::NotInitialized);
        }
        Ok(())
    }

    fn clear_clip_rect(&mut self) -> (r: Result<(), GpuError>)
        ensures
            r == when_ready(*old(self)),
            *final(self) == *old(self),
    {
        if !self.is_initialized {
            return Err(GpuError::NotInitialized);
        }
        Ok(())
    }

    /// Accept blend modes 0 to 3 (none, alpha, additive, multiply).
    fn set_blend_mode(&mut self, mode: u32) -> (r: Result<(), GpuError>)
        ensures
            r == if !old(self).is_initialized {
                Err::<(), GpuError>(GpuError::NotInitialized)
            } else if mode > 3 {
                Err(GpuError::InvalidParameter)
            } else {
                Ok(())
            },
            *final(self) == *old(self),
    {
        if !self.is_initialized {
            return Err(GpuError::NotInitialized);
        }
        if mode > 3 {
            return Err(GpuError::InvalidParameter);
        }
        Ok(())
    }

    fn present(&mut self) -> (r: Result<(), GpuError>)
        ensures
            r == when_ready(*old(self)),
            *final(self) == *old(self),
    {
        if !self.is_initialized {
            return Err(GpuError::NotInitialized);
        }
        Ok(())
    }

    /// Shut down: the card is no longer initialised.
    fn shutdown(&mut self) -> (r: Result<(), GpuError>)
        ensures
            r is Ok,
            *final(self) == (TuringGpu { is_initialized: false, ..*old(self) }),
    {
        if !self.is_initialized {
            return Ok(());
        }
        self.is_initialized = false;
        Ok(())
    }
}

/// Register Turing support: there is nothing to record.
pub fn register_turing_devices() {
}

/// Create a Turing driver: 4 GB of memory and 2304 cores, initialised.
pub fn create_driver(device: &PciDevice) -> (r: Result<TuringGpu, GpuError>)
    ensures
        r == Ok::<TuringGpu, GpuError>(
            TuringGpu {
                device_id: device.device_id as u32,
                vram_size: (4 * 1024 * 1024 * 1024) as u64 as usize,
                core_count: 2304,
                is_initialized: true,
            },
        ),
{
    let device_id = device.device_id;
    let vram_bytes: u64 = 4 * 1024 * 1024 * 1024;
    let core_count: u32 = 2304;
    let mut gpu = TuringGpu::new(device_id as u32, vram_bytes as usize, core_count);
    let _ = gpu.initialize();
    Ok(gpu)
}

} // verus!
