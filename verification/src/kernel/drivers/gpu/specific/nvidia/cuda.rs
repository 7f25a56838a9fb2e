//! The CUDA-based driver for NVIDIA cards: identification by device id,
//! device state, and textures kept by id.

use vstd::prelude::*;
use std::collections::BTreeMap;
use crate::kernel::drivers::gpu::{DisplayMode, Feature, GpuError, GpuInfo, feature_bits};
use crate::kernel::drivers::gpu::pci::PciDevice;
use crate::kernel::drivers::gpu::specific::GpuDevice;
use crate::text::{copy_string, string_from_str};

verus! {

broadcast use vstd::std_specs::btree::group_btree_axioms, vstd::laws_cmp::group_laws_cmp;

/// Texture information for CUDA devices
#[derive(Debug)]
pub struct TextureInfo {
    pub id: u32,
    pub width: u32,
    pub height: u32,
    pub format: u32,
    pub data: Vec<u8>,
    /// CUDA array handle
    pub cuda_array: usize,
    pub has_mipmap: bool,
}

/// Represents a CUDA device handle
#[derive(Debug)]
pub struct CudaDevice {
    pub id: usize,
    pub name: String,
    /// The device name as the identification table gives it.
    pub model: &'static str,
    pub memory_size: usize,
    /// Compute capability (major, minor)
    pub compute_capability: (u32, u32),
    pub is_initialized: bool,
    pub mmio_base: usize,
    pub mmio_size: usize,
    pub framebuffer: usize,
    pub width: u32,
    pub height: u32,
    pub bpp: u8,
    pub pitch: u32,
    pub clip_x: i32,
    pub clip_y: i32,
    pub clip_width: u32,
    pub clip_height: u32,
    pub clip_enabled: bool,
    pub blend_mode: u32,
    pub acceleration_enabled: bool,
    pub next_texture_id: u32,
    pub textures: BTreeMap<u32, TextureInfo>,
    /// Number of streaming multiprocessors
    pub sm_count: u32,
    /// Total CUDA cores
    pub cuda_cores: u32,
    pub tensor_cores: bool,
    pub ray_tracing_cores: bool,
}

/// What the identification table says of a device id: name, compute
/// capability, streaming multiprocessors, tensor cores, ray-tracing cores.
pub open spec fn architecture(device_id: u16) -> (Seq<char>, (u32, u32), u32, bool, bool) {
    if device_id == 0x2204 {
        ("NVIDIA GeForce RTX 3090"@, (8, 6), 82, true, true)
    } else if device_id == 0x2206 {
        ("NVIDIA GeForce RTX 3080"@, (8, 6), 68, true, true)
    } else if device_id == 0x2208 {
        ("NVIDIA GeForce RTX 3070"@, (8, 6), 46, true, true)
    } else if device_id == 0x1E04 {
        ("NVIDIA GeForce RTX 2080 Ti"@, (7, 5), 68, true, true)
    } else if device_id == 0x1E84 {
        ("NVIDIA GeForce RTX 2080 Super"@, (7, 5), 48, true, true)
    } else if device_id == 0x1E87 {
        ("NVIDIA GeForce RTX 2070"@, (7, 5), 36, true, true)
    } else if device_id == 0x1F02 {
        ("NVIDIA GeForce RTX 2060"@, (7, 5), 30, true, true)
    } else if device_id == 0x1B80 {
        ("NVIDIA GeForce GTX 1080"@, (6, 1), 20, false, false)
    } else if device_id == 0x1B81 {
        ("NVIDIA GeForce GTX 1070"@, (6, 1), 15, false, false)
    } else if device_id == 0x1B83 {
        ("NVIDIA GeForce GTX 1060"@, (6, 1), 10, false, false)
    } else {
        ("NVIDIA GPU"@, (6, 0), 8, false, false)
    }
}

/// NVIDIA architecture identification
pub fn identify_gpu_architecture(device_id: u16) -> (r: (&'static str, (u32, u32), u32, bool, bool))
    ensures
        (r.0@, r.1, r.2, r.3, r.4) == architecture(device_id),
{
    match device_id {
        0x2204 => ("NVIDIA GeForce RTX 3090", (8, 6), 82, true, true),
        0x2206 => ("NVIDIA GeForce RTX 3080", (8, 6), 68, true, true),
        0x2208 => ("NVIDIA GeForce RTX 3070", (8, 6), 46, true, true),
        0x1E04 => ("NVIDIA GeForce RTX 2080 Ti", (7, 5), 68, true, true),
        0x1E84 => ("NVIDIA GeForce RTX 2080 Super", (7, 5), 48, true, true),
        0x1E87 => ("NVIDIA GeForce RTX 2070", (7, 5), 36, true, true),
        0x1F02 => ("NVIDIA GeForce RTX 2060", (7, 5), 30, true, true),
        0x1B80 => ("NVIDIA GeForce GTX 1080", (6, 1), 20, false, false),
        0x1B81 => ("NVIDIA GeForce GTX 1070", (6, 1), 15, false, false),
        0x1B83 => ("NVIDIA GeForce GTX 1060", (6, 1), 10, false, false),
        _ => ("NVIDIA GPU", (6, 0), 8, false, false),
    }
}

/// CUDA cores per streaming multiprocessor: 128 for Ampere (8.x) and
/// Pascal (6.x), 64 otherwise.
pub open spec fn cores_per_sm(major: u32) -> u32 {
    if major == 8 || major == 6 { 128 } else { 64 }
}

/// Video memory by device id: 24 GB for the RTX 3090, 10 GB for the 3080,
/// 11 GB for the 2080 Ti, 8 GB otherwise (a 64-bit size, as the driver
/// targets 64-bit machines).
pub open spec fn memory_of(device_id: u16) -> u64 {
    if device_id == 0x2204 {
        (24 * 1024 * 1024 * 1024) as u64
    } else if device_id == 0x2206 {
        (10 * 1024 * 1024 * 1024) as u64
    } else if device_id == 0x1E04 {
        (11 * 1024 * 1024 * 1024) as u64
    } else {
        (8 * 1024 * 1024 * 1024) as u64
    }
}

/// The features a CUDA device reports: 2D and 3D acceleration, hardware
/// cursor, memory mapping, shaders and render targets, with tensor and
/// ray-tracing acceleration where it has those cores.
pub open spec fn cuda_features(tensor: bool, rt: bool) -> u32 {
    let base = (feature_bits(Feature::Acceleration2D) | feature_bits(Feature::Rendering3D) | feature_bits(
        Feature::HardwareCursor,
    ) | feature_bits(Feature::MemoryMapping) | feature_bits(Feature::Shaders) | feature_bits(
        Feature::RenderTargets,
    )) as u32;
    let with_tensor = if tensor { base | feature_bits(Feature::TensorAcceleration) as u32 } else { base };
    if rt { with_tensor | feature_bits(Feature::RayTracing) as u32 } else { with_tensor }
}

/// The display modes a CUDA device lists.
pub open spec fn cuda_modes() -> Seq<DisplayMode> {
    seq![
        DisplayMode { width: 3840, height: 2160, bpp: 32, refresh_rate: 60 },
        DisplayMode { width: 2560, height: 1440, bpp: 32, refresh_rate: 144 },
        DisplayMode { width: 1920, height: 1080, bpp: 32, refresh_rate: 240 },
        DisplayMode { width: 1366, height: 768, bpp: 32, refresh_rate: 144 },
        DisplayMode { width: 1280, height: 720, bpp: 32, refresh_rate: 240 },
    ]
}

/// Bytes per texel of a texture format: 4 for RGBA8 and BGRA8 (0, 2), 3 for
/// RGB8 and BGR8 (1, 3), 1 for A8 (4).
pub open spec fn texel_size(format: u32) -> u32 {
    if format == 0 || format == 2 {
        4
    } else if format == 1 || format == 3 {
        3
    } else {
        1
    }
}

/// The texture arguments pass the driver's checks.
pub open spec fn texture_args_ok(width: u32, height: u32, format: u32) -> bool {
    width != 0 && height != 0 && width <= 32768 && height <= 32768 && format <= 4
}

/// How a texture of this size and format is stored: its id, size and
/// format, the first `width x height x texel` bytes of `data`, a CUDA array
/// handle, no mipmaps.
pub open spec fn stored_texture(t: TextureInfo, id: u32, width: u32, height: u32, format: u32, data: Seq<u8>) -> bool {
    &&& t.id == id
    &&& t.width == width
    &&& t.height == height
    &&& t.format == format
    &&& t.data@ == data.take((width * height * texel_size(format)) as int)
    &&& t.cuda_array == 0xDEADBEEF
    &&& !t.has_mipmap
}

impl CudaDevice {
    /// Creates a new CUDA device instance: identified by its id, with the
    /// cores of its architecture and the memory of its model, a 1920x1080x32
    /// mode, nothing initialised and no texture.
    pub fn new(device_id: u16) -> (d: Self)
        ensures
            d.id == device_id as usize,
            d.name@ == architecture(device_id).0,
            d.model@ == architecture(device_id).0,
            d.compute_capability == architecture(device_id).1,
            d.sm_count == architecture(device_id).2,
            d.tensor_cores == architecture(device_id).3,
            d.ray_tracing_cores == architecture(device_id).4,
            d.cuda_cores == architecture(device_id).2 * cores_per_sm(architecture(device_id).1.0),
            d.memory_size == memory_of(device_id) as usize,
            !d.is_initialized,
            d.mmio_base == 0 && d.mmio_size == 0 && d.framebuffer == 0,
            d.width == 1920 && d.height == 1080 && d.bpp == 32 && d.pitch == 1920 * 4,
            d.clip_x == 0 && d.clip_y == 0 && d.clip_width == 0 && d.clip_height == 0 && !d.clip_enabled,
            d.blend_mode == 0,
            d.acceleration_enabled,
            d.next_texture_id == 1,
            d.textures@ == Map::<u32, TextureInfo>::empty(),
    {
        let (name, compute_capability, sm_count, has_tensor_cores, has_rt_cores) = identify_gpu_architecture(
            device_id,
        );
        let cuda_cores = match compute_capability.0 {
            8 => sm_count * 128,
            7 => sm_count * 64,
            6 => sm_count * 128,
            _ => sm_count * 64,
        };
        let memory_bytes: u64 = match device_id {
            0x2204 => 24 * 1024 * 1024 * 1024,
            0x2206 => 10 * 1024 * 1024 * 1024,
            0x2208 => 8 * 1024 * 1024 * 1024,
            0x1E04 => 11 * 1024 * 1024 * 1024,
            0x1E84 => 8 * 1024 * 1024 * 1024,
            _ => 8 * 1024 * 1024 * 1024,
        };
        let memory_size = memory_bytes as usize;
        CudaDevice {
            id: device_id as usize,
            name: string_from_str(name),
            model: name,
            memory_size,
            compute_capability,
            is_initialized: false,
            mmio_base: 0,
            mmio_size: 0,
            framebuffer: 0,
            width: 1920,
            height: 1080,
            bpp: 32,
            pitch: 1920 * 4,
            clip_x: 0,
            clip_y: 0,
            clip_width: 0,
            clip_height: 0,
            clip_enabled: false,
            blend_mode: 0,
            acceleration_enabled: true,
            next_texture_id: 1,
            textures: BTreeMap::new(),
            sm_count,
            cuda_cores,
            tensor_cores: has_tensor_cores,
            ray_tracing_cores: has_rt_cores,
        }
    }

    /// Initialize the CUDA device: it is then ready; a second call changes
    /// nothing.
    pub fn initialize(&mut self) -> (r: Result<(), GpuError>)
        ensures
            r is Ok,
            *final(self) == (CudaDevice { is_initialized: true, ..*old(self) }),
    {
        if self.is_initialized {
            return Ok(());
        }
        self.is_initialized = true;
        Ok(())
    }

    /// Get the CUDA compute capability
    pub fn get_compute_capability(&self) -> (r: (u32, u32))
        ensures
            r == self.compute_capability,
    {
        self.compute_capability
    }

    /// Check if the device has tensor cores
    pub fn has_tensor_cores(&self) -> (b: bool)
        ensures
            b == self.tensor_cores,
    {
        self.tensor_cores
    }

    /// Check if the device has ray tracing cores
    pub fn has_ray_tracing_cores(&self) -> (b: bool)
        ensures
            b == self.ray_tracing_cores,
    {
        self.ray_tracing_cores
    }

    /// Launch a CUDA kernel: refused before initialisation.
    pub fn launch_kernel(&self, kernel_name: &str, grid_dim: (u32, u32, u32), block_dim: (u32, u32, u32)) -> (r:
        Result<(), GpuError>)
        ensures
            r == if self.is_initialized {
                Ok::<(), GpuError>(())
            } else {
                Err(GpuError::NotInitialized)
            },
    {
        if !self.is_initialized {
            return Err(GpuError::NotInitialized);
        }
        Ok(())
    }

    /// Allocate device memory: a fixed handle once initialised.
    pub fn malloc(&self, size: usize) -> (r: Result<usize, GpuError>)
        ensures
            r == if self.is_initialized {
                Ok::<usize, GpuError>(0xDEADBEEF)
            } else {
                Err(GpuError::NotInitialized)
            },
    {
        if !self.is_initialized {
            return Err(GpuError::NotInitialized);
        }
        Ok(0xDEADBEEF)
    }

    /// Free device memory: refused before initialisation.
    pub fn free(&self, ptr: usize) -> (r: Result<(), GpuError>)
        ensures
            r == if self.is_initialized {
                Ok::<(), GpuError>(())
            } else {
                Err(GpuError::NotInitialized)
            },
    {
        if !self.is_initialized {
            return Err(GpuError::NotInitialized);
        }
        Ok(())
    }

    /// The device's information (see `GpuDevice::get_info`).
    fn info(&self) -> (i: GpuInfo)
        ensures
            i.vendor@ == "NVIDIA"@,
            i.device@ == self.model@,
            i.vram_size == self.memory_size,
            i.max_texture_size == 32768,
            i.features == cuda_features(self.tensor_cores, self.ray_tracing_cores),
            i.current_mode == (DisplayMode { width: self.width, height: self.height, bpp: self.bpp, refresh_rate: 60 }),
            i.available_modes@ == cuda_modes(),
    {
        let modes = vec![
            DisplayMode { width: 3840, height: 2160, bpp: 32, refresh_rate: 60 },
            DisplayMode { width: 2560, height: 1440, bpp: 32, refresh_rate: 144 },
            DisplayMode { width: 1920, height: 1080, bpp: 32, refresh_rate: 240 },
            DisplayMode { width: 1366, height: 768, bpp: 32, refresh_rate: 144 },
            DisplayMode { width: 1280, height: 720, bpp: 32, refresh_rate: 240 },
        ];
        assert(modes@ =~= cuda_modes());
        let current_mode = DisplayMode { width: self.width, height: self.height, bpp: self.bpp, refresh_rate: 60 };
        let mut features: u32 = (Feature::Acceleration2D.bits() | Feature::Rendering3D.bits()
            | Feature::HardwareCursor.bits() | Feature::MemoryMapping.bits() | Feature::Shaders.bits()
            | Feature::RenderTargets.bits()) as u32;
        if self.tensor_cores {
            features = features | Feature::TensorAcceleration.bits() as u32;
        }
        if self.ray_tracing_cores {
            features = features | Feature::RayTracing.bits() as u32;
        }
        proof {
            reveal_strlit("NVIDIA");
        }
        GpuInfo {
            vendor: "NVIDIA",
            device: self.model,
            vram_size: self.memory_size,
            max_texture_size: 32768,
            features,
            current_mode,
            available_modes: modes,
        }
    }
}

/// The size in bytes of a texture's texels, where the arguments pass the
/// checks.
pub open spec fn texture_bytes(width: u32, height: u32, format: u32) -> int {
    width * height * texel_size(format)
}

impl GpuDevice for CudaDevice {
    open spec fn well_formed(&self) -> bool {
        true
    }

    /// A texture that passes the checks has its byte count in 32 bits, and
    /// the next texture id is not the last.
    open spec fn texture_defined(&self, width: u32, height: u32, format: u32) -> bool {
        self.is_initialized && texture_args_ok(width, height, format) ==> texture_bytes(width, height, format)
            <= u32::MAX && self.next_texture_id < u32::MAX
    }

    /// A new width gives a pitch in 32 bits.
    open spec fn framebuffer_defined(&self, width: u32, height: u32) -> bool {
        self.is_initialized && (width != self.width || height != self.height) ==> width * (self.bpp / 8) <= u32::MAX
    }

    /// Report the device: vendor, model, memory, texture limit, features
    /// and display modes (see `cuda_features` and `cuda_modes`).
    fn get_info(&self) -> (r: Result<GpuInfo, GpuError>)
        ensures
            !self.is_initialized ==> r == Err::<GpuInfo, GpuError>(GpuError::NotInitialized),
            self.is_initialized ==> (r matches Ok(i) && {
                &&& i.vendor@ == "NVIDIA"@
                &&& i.device@ == self.model@
                &&& i.vram_size == self.memory_size
                &&& i.max_texture_size == 32768
                &&& i.features == cuda_features(self.tensor_cores, self.ray_tracing_cores)
                &&& i.current_mode == (DisplayMode {
                    width: self.width,
                    height: self.height,
                    bpp: self.bpp,
                    refresh_rate: 60,
                })
                &&& i.available_modes@ == cuda_modes()
            }),
    {
        if !self.is_initialized {
            return Err(GpuError::NotInitialized);
        }
        Ok(self.info())
    }

    /// The framebuffer address; a new size switches the mode, with the
    /// pitch following the width.
    fn get_framebuffer(&mut self, width: u32, height: u32) -> (r: Result<usize, GpuError>)
        ensures
            !old(self).is_initialized ==> r == Err::<usize, GpuError>(GpuError::NotInitialized)
                && *final(self) == *old(self),
            old(self).is_initialized ==> r == Ok::<usize, GpuError>(old(self).framebuffer),
            old(self).is_initialized && (width != old(self).width || height != old(self).height) ==> *final(self) == (
            CudaDevice { width, height, pitch: (width * (old(self).bpp / 8)) as u32, ..*old(self) }),
            old(self).is_initialized && width == old(self).width && height == old(self).height ==> *final(self)
                == *old(self),
    {
        if !self.is_initialized {
            return Err(GpuError::NotInitialized);
        }
        if width != self.width || height != self.height {
            self.width = width;
            self.height = height;
            self.pitch = width * (self.bpp as u32 / 8);
        }
        Ok(self.framebuffer)
    }

    fn get_framebuffer_pitch(&self) -> (r: Result<u32, GpuError>)
        ensures
            r == if self.is_initialized {
                Ok::<u32, GpuError>(self.pitch)
            } else {
                Err(GpuError::NotInitialized)
            },
    {
        if !self.is_initialized {
            return Err(GpuError::NotInitialized);
        }
        Ok(self.pitch)
    }

    /// Clearing runs the clear kernel; nothing is kept.
    fn clear(&mut self, color: u32) -> (r: Result<(), GpuError>)
        ensures
            r == if old(self).is_initialized {
                Ok::<(), GpuError>(())
            } else {
                Err(GpuError::NotInitialized)
            },
            *final(self) == *old(self),
    {
        if !self.is_initialized {
            return Err(GpuError::NotInitialized);
        }
        self.launch_kernel("clear_screen", (self.width / 32, self.height / 32, 1), (32, 32, 1))
    }

    /// Filling runs the fill kernel; nothing is kept.
    fn fill_rect(&mut self, x: i32, y: i32, width: u32, height: u32, color: u32) -> (r: Result<(), GpuError>)
        ensures
            r == if old(self).is_initialized {
                Ok::<(), GpuError>(())
            } else {
                Err(GpuError::NotInitialized)
            },
            *final(self) == *old(self),
    {
        if !self.is_initialized {
            return Err(GpuError::NotInitialized);
        }
        self.launch_kernel("fill_rect", (1, 1, 1), (256, 1, 1))
    }

    /// Drawing a line runs the line kernel; nothing is kept.
    fn draw_line(&mut self, x1: i32, y1: i32, x2: i32, y2: i32, color: u32) -> (r: Result<(), GpuError>)
        ensures
            r == if old(self).is_initialized {
                Ok::<(), GpuError>(())
            } else {
                Err(GpuError::NotInitialized)
            },
            *final(self) == *old(self),
    {
        if !self.is_initialized {
            return Err(GpuError::NotInitialized);
        }
        self.launch_kernel("draw_line", (1, 1, 1), (128, 1, 1))
    }

    /// Create a texture: the size must be 1 to 32768 each way and the format
    /// 0 to 4, and `data` must hold the texels (see `texel_size`); the texels
    /// are kept under the next id.
    fn create_texture(&mut self, width: u32, height: u32, format: u32, data: &[u8]) -> (r: Result<u32, GpuError>)
        ensures
            !old(self).is_initialized ==> r == Err::<u32, GpuError>(GpuError::NotInitialized) && *final(self)
                == *old(self),
            old(self).is_initialized && (width == 0 || height == 0 || width > 32768 || height > 32768) ==> r
                == Err::<u32, GpuError>(GpuError::InvalidParameter) && *final(self) == *old(self),
            old(self).is_initialized && !(width == 0 || height == 0 || width > 32768 || height > 32768) && format
                > 4 ==> r == Err::<u32, GpuError>(GpuError::UnsupportedFormat) && *final(self) == *old(self),
            old(self).is_initialized && texture_args_ok(width, height, format) && data@.len() < texture_bytes(
                width,
                height,
                format,
            ) ==> r == Err::<u32, GpuError>(GpuError::InvalidParameter) && *final(self) == *old(self),
            old(self).is_initialized && texture_args_ok(width, height, format) && data@.len() >= texture_bytes(
                width,
                height,
                format,
            ) ==> {
                let id = old(self).next_texture_id;
                &&& r == Ok::<u32, GpuError>(id)
                &&& final(self).next_texture_id == id + 1
                &&& final(self).textures@.dom() == old(self).textures@.dom().insert(id)
                &&& stored_texture(final(self).textures@[id], id, width, height, format, data@)
                &&& forall|k: u32| k != id && old(self).textures@.contains_key(k) ==> final(self).textures@[k]
                    == old(self).textures@[k]
                &&& final(self).is_initialized
            },
    {
        if !self.is_initialized {
            return Err(GpuError::NotInitialized);
        }
        if width == 0 || height == 0 || width > 32768 || height > 32768 {
            return Err(GpuError::InvalidParameter);
        }
        if format > 4 {
            return Err(GpuError::UnsupportedFormat);
        }
        let bytes_per_pixel: u32 = match format {
            0 | 2 => 4,
            1 | 3 => 3,
            4 => 1,
            _ => {
                return Err(GpuError::UnsupportedFormat);
            },
        };
        assert(width * height * bytes_per_pixel <= u32::MAX);
        assert(width * height <= u32::MAX) by (nonlinear_arith)
            requires
                width * height * bytes_per_pixel <= u32::MAX,
                bytes_per_pixel >= 1,
        ;
        let expected_size = (width * height * bytes_per_pixel) as usize;
        if data.len() < expected_size {
            return Err(GpuError::InvalidParameter);
        }
        let texture_id = self.next_texture_id;
        self.next_texture_id += 1;
        let mut texture_data: Vec<u8> = Vec::with_capacity(expected_size);
        texture_data.extend_from_slice(vstd::slice::slice_subrange(data, 0, expected_size));
        assert(texture_data@ =~= data@.take(expected_size as int));
        let cuda_array: usize = 0xDEADBEEF;
        let texture = TextureInfo {
            id: texture_id,
            width,
            height,
            format,
            data: texture_data,
            cuda_array,
            has_mipmap: false,
        };
        self.textures.insert(texture_id, texture);
        Ok(texture_id)
    }

    /// Destroy a texture: refused for an unknown id.
    fn destroy_texture(&mut self, texture_id: u32) -> (r: Result<(), GpuError>)
        ensures
            !old(self).is_initialized ==> r == Err::<(), GpuError>(GpuError::NotInitialized) && *final(self)
                == *old(self),
            old(self).is_initialized && !old(self).textures@.contains_key(texture_id) ==> r == Err::<(), GpuError>(
                GpuError::InvalidTexture,
            ) && final(self).textures@ == old(self).textures@,
            old(self).is_initialized && old(self).textures@.contains_key(texture_id) ==> r == Ok::<(), GpuError>(())
                && final(self).textures@ == old(self).textures@.remove(texture_id),
            final(self).is_initialized == old(self).is_initialized,
            final(self).next_texture_id == old(self).next_texture_id,
    {
        if !self.is_initialized {
            return Err(GpuError::NotInitialized);
        }
        match self.textures.remove(&texture_id) {
            Some(_) => Ok(()),
            None => Err(GpuError::InvalidTexture),
        }
    }

    /// The texels of a texture: refused for an unknown id.
    fn get_texture_data(&self, texture_id: u32) -> (r: Result<&[u8], GpuError>)
        ensures
            !self.is_initialized ==> r == Err::<&[u8], GpuError>(GpuError::NotInitialized),
            self.is_initialized && !self.textures@.contains_key(texture_id) ==> r == Err::<&[u8], GpuError>(
                GpuError::InvalidTexture,
            ),
            self.is_initialized && self.textures@.contains_key(texture_id) ==> (r matches Ok(d) && d@
                == self.textures@[texture_id].data@),
    {
        if !self.is_initialized {
            return Err(GpuError::NotInitialized);
        }
        match self.textures.get(&texture_id) {
            Some(texture) => Ok(texture.data.as_slice()),
            None => Err(GpuError::InvalidTexture),
        }
    }

    /// Drawing a texture runs the texture kernel: refused for an unknown id.
    fn draw_texture(&mut self, texture_id: u32, x: i32, y: i32, width: u32, height: u32) -> (r: Result<(), GpuError>)
        ensures
            r == if !old(self).is_initialized {
                Err::<(), GpuError>(GpuError::NotInitialized)
            } else if !old(self).textures@.contains_key(texture_id) {
                Err(GpuError::InvalidTexture)
            } else {
                Ok(())
            },
            *final(self) == *old(self),
    {
        if !self.is_initialized {
            return Err(GpuError::NotInitialized);
        }
        if !self.textures.contains_key(&texture_id) {
            return Err(GpuError::InvalidTexture);
        }
        self.launch_kernel("draw_texture", (width / 16, height / 16, 1), (16, 16, 1))
    }

    /// Store and enable the clipping rectangle.
    fn set_clip_rect(&mut self, x: i32, y: i32, width: u32, height: u32) -> (r: Result<(), GpuError>)
        ensures
            !old(self).is_initialized ==> r == Err::<(), GpuError>(GpuError::NotInitialized) && *final(self)
                == *old(self),
            old(self).is_initialized ==> r == Ok::<(), GpuError>(()) && *final(self) == (CudaDevice {
                clip_x: x,
                clip_y: y,
                clip_width: width,
                clip_height: height,
                clip_enabled: true,
                ..*old(self)
            }),
    {
        if !self.is_initialized {
            return Err(GpuError::NotInitialized);
        }
        self.clip_x = x;
        self.clip_y = y;
        self.clip_width = width;
        self.clip_height = height;
        self.clip_enabled = true;
        Ok(())
    }

    /// Disable clipping.
    fn clear_clip_rect(&mut self) -> (r: Result<(), GpuError>)
        ensures
            !old(self).is_initialized ==> r == Err::<(), GpuError>(GpuError::NotInitialized) && *final(self)
                == *old(self),
            old(self).is_initialized ==> r == Ok::<(), GpuError>(()) && *final(self) == (CudaDevice {
                clip_enabled: false,
                ..*old(self)
            }),
    {
        if !self.is_initialized {
            return Err(GpuError::NotInitialized);
        }
        self.clip_enabled = false;
        Ok(())
    }

    /// Set the blend mode: 0 to 3.
    fn set_blend_mode(&mut self, mode: u32) -> (r: Result<(), GpuError>)
        ensures
            !old(self).is_initialized ==> r == Err::<(), GpuError>(GpuError::NotInitialized) && *final(self)
                == *old(self),
            old(self).is_initialized && mode > 3 ==> r == Err::<(), GpuError>(GpuError::InvalidParameter)
                && *final(self) == *old(self),
            old(self).is_initialized && mode <= 3 ==> r == Ok::<(), GpuError>(()) && *final(self) == (CudaDevice {
                blend_mode: mode,
                ..*old(self)
            }),
    {
        if !self.is_initialized {
            return Err(GpuError::NotInitialized);
        }
        if mode > 3 {
            return Err(GpuError::InvalidParameter);
        }
        self.blend_mode = mode;
        Ok(())
    }

    fn present(&mut self) -> (r: Result<(), GpuError>)
        ensures
            r == if old(self).is_initialized {
                Ok::<(), GpuError>(())
            } else {
                Err(GpuError::NotInitialized)
            },
            *final(self) == *old(self),
    {
        if !self.is_initialized {
            return Err(GpuError::NotInitialized);
        }
        Ok(())
    }

    /// Shut down: textures are freed and the device is no longer ready.
    fn shutdown(&mut self) -> (r: Result<(), GpuError>)
        ensures
            r is Ok,
            !old(self).is_initialized ==> *final(self) == *old(self),
            old(self).is_initialized ==> final(self).textures@ == Map::<u32, TextureInfo>::empty()
                && !final(self).is_initialized && final(self).next_texture_id == old(self).next_texture_id,
    {
        if !self.is_initialized {
            return Ok(());
        }
        self.textures.clear();
        self.is_initialized = false;
        Ok(())
    }
}

/// Create a CUDA driver for the specified PCI device: refused for a device
/// that is not NVIDIA's (vendor 0x10DE); else the device, initialised.
pub fn create_driver(device: &PciDevice) -> (r: Result<CudaDevice, GpuError>)
    ensures
        device.vendor_id != 0x10DE ==> r == Err::<CudaDevice, GpuError>(GpuError::InvalidDevice),
        device.vendor_id == 0x10DE ==> (r matches Ok(d) && {
            &&& d.is_initialized
            &&& d.id == device.device_id as usize
            &&& d.name@ == architecture(device.device_id).0
            &&& d.compute_capability == architecture(device.device_id).1
            &&& d.memory_size == memory_of(device.device_id) as usize
            &&& d.textures@ == Map::<u32, TextureInfo>::empty()
            &&& d.next_texture_id == 1
        }),
{
    if device.vendor_id != 0x10DE {
        return Err(GpuError::InvalidDevice);
    }
    let mut cuda_device = CudaDevice::new(device.device_id);
    match cuda_device.initialize() {
        Ok(()) => {},
        Err(e) => {
            return Err(e);
        },
    }
    Ok(cuda_device)
}

} // verus!
