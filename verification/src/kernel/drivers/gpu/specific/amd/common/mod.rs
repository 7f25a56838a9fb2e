//! Common structures of the AMD GPU drivers: the device as the PCI bus
//! describes it, its MMIO registers, its memory allocations and textures,
//! and the 2D engine operations.

pub mod registers;
pub mod commands;

use vstd::prelude::*;
use std::collections::HashMap;
use crate::kernel::drivers::gpu::pci::PciDevice;
use crate::kernel::drivers::gpu::DisplayMode;
use crate::text::string_from_str;

verus! {

broadcast use vstd::std_specs::hash::group_hash_axioms;

/// Represents information about the AMD GPU architecture
#[derive(Debug, Clone, Copy)]
pub enum AmdGpuArchitecture {
    /// Graphics Core Next 1st gen (Southern Islands)
    GCN1,
    /// Graphics Core Next 2nd gen (Sea Islands)
    GCN2,
    /// Graphics Core Next 3rd gen (Volcanic Islands)
    GCN3,
    /// Graphics Core Next 4th gen (Polaris)
    GCN4,
    /// Graphics Core Next 5th gen (Vega)
    GCN5,
    /// RDNA 1st gen (Navi)
    RDNA1,
    /// RDNA 2nd gen (Big Navi)
    RDNA2,
    /// Unidentified architecture
    Unknown,
}

/// AMD GPU memory types
#[derive(Debug, Clone, Copy)]
pub enum AmdMemoryType {
    GDDR5,
    GDDR6,
    HBM,
    HBM2,
    DDR4,
    Unknown,
}

/// Represents a rectangle for 2D operations
#[derive(Debug, Clone, Copy)]
pub struct Rect {
    pub x: i32,
    pub y: i32,
    pub width: u32,
    pub height: u32,
}

/// Represents an allocated memory region
#[derive(Debug, Clone, Copy)]
pub struct MemoryAllocation {
    pub address: u64,
    pub size: usize,
    pub is_vram: bool,
}

/// Represents a texture in GPU memory
#[derive(Debug, Clone, Copy)]
pub struct Texture {
    pub id: u32,
    pub width: u32,
    pub height: u32,
    pub format: TextureFormat,
    pub memory: MemoryAllocation,
}

/// Texture formats supported by AMD GPUs
#[derive(Debug, Clone, Copy, PartialEq, Eq, Structural)]
pub enum TextureFormat {
    RGBA8,
    BGRA8,
    RGB8,
    BGR8,
    A8,
    R8,
    RG8,
    RGB10A2,
    /// DXT1
    BC1,
    /// DXT3
    BC2,
    /// DXT5
    BC3,
    /// ATI1
    BC4,
    /// ATI2
    BC5,
    BC6H,
    BC7,
}

/// Represents a common error type for AMD GPU operations
#[derive(Debug, Clone, Copy, PartialEq, Eq, Structural)]
pub enum AmdGpuError {
    InitializationFailed,
    UnsupportedDevice,
    CommunicationError,
    OutOfMemory,
    InvalidParameter,
    TextureFailed,
    DisplayModeFailed,
    NotInitialized,
    OperationFailed,
}

/// The device's MMIO register window: each register holds the last value
/// written to it, 0 before any write.
#[derive(Debug)]
pub struct MmioWindow {
    words: HashMap<usize, u32>,
}

impl MmioWindow {
    /// The registers written so far and their values.
    pub closed spec fn regs(&self) -> Map<usize, u32> {
        self.words@
    }

    /// A register's value.
    pub open spec fn reg(&self, offset: usize) -> u32 {
        if self.regs().contains_key(offset) { self.regs()[offset] } else { 0 }
    }

    /// A window where nothing has been written.
    pub fn new() -> (m: Self)
        ensures
            m.regs() == Map::<usize, u32>::empty(),
    {
        MmioWindow { words: HashMap::new() }
    }

    /// Read a register.
    pub fn read(&self, offset: usize) -> (v: u32)
        ensures
            v == self.reg(offset),
    {
        match self.words.get(&offset) {
            Some(v) => *v,
            None => 0,
        }
    }

    /// Write a register.
    pub fn write(&mut self, offset: usize, value: u32)
        ensures
            final(self).regs() == old(self).regs().insert(offset, value),
    {
        self.words.insert(offset, value);
    }
}

} // verus!

verus! {

/// Represents a common structure for AMD GPU devices
#[derive(Debug)]
pub struct AmdGpuDevice {
    pub device_id: u32,
    pub vendor_id: u32,
    pub name: String,
    pub architecture: AmdGpuArchitecture,
    pub mmio_base: usize,
    pub mmio_size: usize,
    pub vram_size: usize,
    pub vram_base: u64,
    pub memory_type: AmdMemoryType,
    /// MHz
    pub core_clock: u32,
    /// MHz
    pub memory_clock: u32,
    pub compute_units: u32,
    pub stream_processors: u32,
    pub framebuffer_address: u64,
    pub framebuffer_pitch: u32,
    pub framebuffer_width: u32,
    pub framebuffer_height: u32,
    pub framebuffer_bpp: u8,
    pub current_power_state: u32,
    pub supports_hw_cursor: bool,
    pub supports_3d: bool,
    pub supports_compute: bool,
    pub supports_video_decode: bool,
    pub supports_video_encode: bool,
    /// The MMIO register window at `mmio_base`
    pub mmio: MmioWindow,
    allocations: Vec<MemoryAllocation>,
    next_texture_id: u32,
    textures: Vec<Texture>,
    initialized: bool,
}


/// What an AMD device holds, field by field.
pub struct AmdDeviceView {
    pub device_id: u32,
    pub vendor_id: u32,
    pub name: Seq<char>,
    pub architecture: AmdGpuArchitecture,
    pub mmio_base: usize,
    pub mmio_size: usize,
    pub vram_size: usize,
    pub vram_base: u64,
    pub memory_type: AmdMemoryType,
    pub core_clock: u32,
    pub memory_clock: u32,
    pub compute_units: u32,
    pub stream_processors: u32,
    pub framebuffer_address: u64,
    pub framebuffer_pitch: u32,
    pub framebuffer_width: u32,
    pub framebuffer_height: u32,
    pub framebuffer_bpp: u8,
    pub current_power_state: u32,
    pub supports_hw_cursor: bool,
    pub supports_3d: bool,
    pub supports_compute: bool,
    pub supports_video_decode: bool,
    pub supports_video_encode: bool,
    /// The MMIO registers written so far
    pub mmio: Map<usize, u32>,
    pub allocations: Seq<MemoryAllocation>,
    pub next_texture_id: u32,
    pub textures: Seq<Texture>,
    pub initialized: bool,
}

impl View for AmdGpuDevice {
    type V = AmdDeviceView;

    closed spec fn view(&self) -> AmdDeviceView {
        AmdDeviceView {
            device_id: self.device_id,
            vendor_id: self.vendor_id,
            name: self.name@,
            architecture: self.architecture,
            mmio_base: self.mmio_base,
            mmio_size: self.mmio_size,
            vram_size: self.vram_size,
            vram_base: self.vram_base,
            memory_type: self.memory_type,
            core_clock: self.core_clock,
            memory_clock: self.memory_clock,
            compute_units: self.compute_units,
            stream_processors: self.stream_processors,
            framebuffer_address: self.framebuffer_address,
            framebuffer_pitch: self.framebuffer_pitch,
            framebuffer_width: self.framebuffer_width,
            framebuffer_height: self.framebuffer_height,
            framebuffer_bpp: self.framebuffer_bpp,
            current_power_state: self.current_power_state,
            supports_hw_cursor: self.supports_hw_cursor,
            supports_3d: self.supports_3d,
            supports_compute: self.supports_compute,
            supports_video_decode: self.supports_video_decode,
            supports_video_encode: self.supports_video_encode,
            mmio: self.mmio.regs(),
            allocations: self.allocations@,
            next_texture_id: self.next_texture_id,
            textures: self.textures@,
            initialized: self.initialized,
        }
    }
}

/// The value of register `offset` in a register map: 0 before any write.
pub open spec fn reg_value(m: Map<usize, u32>, offset: usize) -> u32 {
    if m.contains_key(offset) { m[offset] } else { 0 }
}

/// The architecture a device ID belongs to.
pub open spec fn architecture_of(device_id: u16) -> AmdGpuArchitecture {
    if device_id == 0x73BF || device_id == 0x73BE || device_id == 0x73A5 || device_id == 0x73A3 || device_id == 0x73DF {
        AmdGpuArchitecture::RDNA2
    } else if device_id == 0x731F || device_id == 0x7340 {
        AmdGpuArchitecture::RDNA1
    } else if device_id == 0x687F || device_id == 0x6863 {
        AmdGpuArchitecture::GCN5
    } else if device_id == 0x67DF || device_id == 0x67CF || device_id == 0x67FF {
        AmdGpuArchitecture::GCN4
    } else if device_id == 0x7300 {
        AmdGpuArchitecture::GCN3
    } else {
        AmdGpuArchitecture::Unknown
    }
}

/// The memory an architecture comes with.
pub open spec fn memory_type_of(a: AmdGpuArchitecture) -> AmdMemoryType {
    match a {
        AmdGpuArchitecture::RDNA2 => AmdMemoryType::GDDR6,
        AmdGpuArchitecture::RDNA1 => AmdMemoryType::GDDR6,
        AmdGpuArchitecture::GCN5 => AmdMemoryType::HBM2,
        AmdGpuArchitecture::GCN4 => AmdMemoryType::GDDR5,
        AmdGpuArchitecture::GCN3 => AmdMemoryType::HBM,
        _ => AmdMemoryType::GDDR5,
    }
}

/// The compute units of a model, estimated from its architecture where the
/// model is not known.
pub open spec fn compute_units_of(a: AmdGpuArchitecture, device_id: u16) -> u32 {
    match a {
        AmdGpuArchitecture::RDNA2 => if device_id == 0x73BF {
            80
        } else if device_id == 0x73BE {
            72
        } else if device_id == 0x73A5 {
            60
        } else if device_id == 0x73DF {
            40
        } else {
            20
        },
        AmdGpuArchitecture::RDNA1 => if device_id == 0x731F {
            40
        } else if device_id == 0x7340 {
            36
        } else {
            24
        },
        AmdGpuArchitecture::GCN5 => if device_id == 0x687F {
            64
        } else if device_id == 0x6863 {
            56
        } else {
            36
        },
        AmdGpuArchitecture::GCN4 => if device_id == 0x67DF {
            36
        } else if device_id == 0x67CF {
            32
        } else {
            24
        },
        _ => 16,
    }
}

/// The display modes the AMD drivers offer, largest first: 3840x2160 down
/// to 640x480, all 32 bits, at 60 Hz but for 2560x1440 and one 1920x1080
/// at 144 Hz.
pub open spec fn amd_modes() -> Seq<DisplayMode> {
    seq![
        DisplayMode { width: 3840, height: 2160, bpp: 32, refresh_rate: 60 },
        DisplayMode { width: 2560, height: 1440, bpp: 32, refresh_rate: 144 },
        DisplayMode { width: 1920, height: 1080, bpp: 32, refresh_rate: 144 },
        DisplayMode { width: 1920, height: 1080, bpp: 32, refresh_rate: 60 },
        DisplayMode { width: 1680, height: 1050, bpp: 32, refresh_rate: 60 },
        DisplayMode { width: 1600, height: 900, bpp: 32, refresh_rate: 60 },
        DisplayMode { width: 1366, height: 768, bpp: 32, refresh_rate: 60 },
        DisplayMode { width: 1280, height: 1024, bpp: 32, refresh_rate: 60 },
        DisplayMode { width: 1280, height: 720, bpp: 32, refresh_rate: 60 },
        DisplayMode { width: 1024, height: 768, bpp: 32, refresh_rate: 60 },
        DisplayMode { width: 800, height: 600, bpp: 32, refresh_rate: 60 },
        DisplayMode { width: 640, height: 480, bpp: 32, refresh_rate: 60 },
    ]
}

impl Default for AmdGpuDevice {
    /// An AMD device with nothing known of it: vendor 0x1002, 32 bits per
    /// pixel, normal power, no features, nothing allocated, not initialized.
    fn default() -> (d: Self)
        ensures
            d@.device_id == 0,
            d@.vendor_id == 0x1002,
            d@.name == Seq::<char>::empty(),
            d@.architecture is Unknown,
            d@.mmio_base == 0,
            d@.mmio_size == 0,
            d@.vram_size == 0,
            d@.vram_base == 0,
            d@.memory_type is Unknown,
            d@.core_clock == 0,
            d@.memory_clock == 0,
            d@.compute_units == 0,
            d@.stream_processors == 0,
            d@.framebuffer_address == 0,
            d@.framebuffer_pitch == 0,
            d@.framebuffer_width == 0,
            d@.framebuffer_height == 0,
            d@.framebuffer_bpp == 32,
            d@.current_power_state == commands::POWER_NORMAL,
            !d@.supports_hw_cursor && !d@.supports_3d && !d@.supports_compute,
            !d@.supports_video_decode && !d@.supports_video_encode,
            d@.mmio == Map::<usize, u32>::empty(),
            d@.allocations == Seq::<MemoryAllocation>::empty(),
            d@.textures == Seq::<Texture>::empty(),
            d@.next_texture_id == 1,
            !d@.initialized,
    {
        Self {
            device_id: 0,
            vendor_id: 0x1002,
            name: String::new(),
            architecture: AmdGpuArchitecture::Unknown,
            mmio_base: 0,
            mmio_size: 0,
            vram_size: 0,
            vram_base: 0,
            memory_type: AmdMemoryType::Unknown,
            core_clock: 0,
            memory_clock: 0,
            compute_units: 0,
            stream_processors: 0,
            framebuffer_address: 0,
            framebuffer_pitch: 0,
            framebuffer_width: 0,
            framebuffer_height: 0,
            framebuffer_bpp: 32,
            current_power_state: commands::POWER_NORMAL,
            supports_hw_cursor: false,
            supports_3d: false,
            supports_compute: false,
            supports_video_decode: false,
            supports_video_encode: false,
            mmio: MmioWindow::new(),
            allocations: Vec::new(),
            next_texture_id: 1,
            textures: Vec::new(),
            initialized: false,
        }
    }
}

impl AmdGpuDevice {
    /// Create a new AMD GPU device from PCI information: the architecture,
    /// memory type and compute units follow from the device ID, 64 stream
    /// processors per compute unit, the MMIO window at BAR0 (its low byte
    /// cleared, 16 MiB), all features but video encoding on an unknown
    /// architecture.
    pub fn new(pci_device: &PciDevice) -> (d: Self)
        ensures
            d@.device_id == pci_device.device_id as u32,
            d@.vendor_id == pci_device.vendor_id as u32,
            d@.name == pci_device.device_name@,
            d@.architecture == architecture_of(pci_device.device_id),
            d@.memory_type == memory_type_of(architecture_of(pci_device.device_id)),
            d@.mmio_base == (pci_device.bar0 as usize & 0xFFFFFF00),
            d@.mmio_size == 16 * 1024 * 1024,
            d@.vram_size == pci_device.memory_size as usize,
            d@.vram_base == pci_device.vram_address,
            d@.core_clock == pci_device.core_clock,
            d@.memory_clock == pci_device.memory_clock,
            d@.compute_units == compute_units_of(architecture_of(pci_device.device_id), pci_device.device_id),
            d@.stream_processors == d@.compute_units * 64,
            d@.framebuffer_address == 0,
            d@.framebuffer_pitch == 0,
            d@.framebuffer_width == 0,
            d@.framebuffer_height == 0,
            d@.framebuffer_bpp == 32,
            d@.current_power_state == commands::POWER_NORMAL,
            d@.supports_hw_cursor && d@.supports_3d && d@.supports_compute && d@.supports_video_decode,
            d@.supports_video_encode == !(architecture_of(pci_device.device_id) is Unknown),
            d@.mmio == Map::<usize, u32>::empty(),
            d@.allocations == Seq::<MemoryAllocation>::empty(),
            d@.textures == Seq::<Texture>::empty(),
            d@.next_texture_id == 1,
            !d@.initialized,
    {
        let mut device = Self::default();
        device.device_id = pci_device.device_id as u32;
        device.vendor_id = pci_device.vendor_id as u32;
        device.name = string_from_str(pci_device.device_name);
        let id = pci_device.device_id;
        device.architecture = if id == 0x73BF || id == 0x73BE || id == 0x73A5 || id == 0x73A3 || id == 0x73DF {
            AmdGpuArchitecture::RDNA2
        } else if id == 0x731F || id == 0x7340 {
            AmdGpuArchitecture::RDNA1
        } else if id == 0x687F || id == 0x6863 {
            AmdGpuArchitecture::GCN5
        } else if id == 0x67DF || id == 0x67CF || id == 0x67FF {
            AmdGpuArchitecture::GCN4
        } else if id == 0x7300 {
            AmdGpuArchitecture::GCN3
        } else {
            AmdGpuArchitecture::Unknown
        };
        device.memory_type = match device.architecture {
            AmdGpuArchitecture::RDNA2 => AmdMemoryType::GDDR6,
            AmdGpuArchitecture::RDNA1 => AmdMemoryType::GDDR6,
            AmdGpuArchitecture::GCN5 => AmdMemoryType::HBM2,
            AmdGpuArchitecture::GCN4 => AmdMemoryType::GDDR5,
            AmdGpuArchitecture::GCN3 => AmdMemoryType::HBM,
            _ => AmdMemoryType::GDDR5,
        };
        device.mmio_base = pci_device.bar0 as usize & 0xFFFFFF00;
        device.mmio_size = 16 * 1024 * 1024;
        device.vram_size = pci_device.memory_size as usize;
        device.vram_base = pci_device.vram_address;
        device.core_clock = pci_device.core_clock;
        device.memory_clock = pci_device.memory_clock;
        device.compute_units = match device.architecture {
            AmdGpuArchitecture::RDNA2 => {
                if id == 0x73BF {
                    80
                } else if id == 0x73BE {
                    72
                } else if id == 0x73A5 {
                    60
                } else if id == 0x73DF {
                    40
                } else {
                    20
                }
            },
            AmdGpuArchitecture::RDNA1 => {
                if id == 0x731F {
                    40
                } else if id == 0x7340 {
                    36
                } else {
                    24
                }
            },
            AmdGpuArchitecture::GCN5 => {
                if id == 0x687F {
                    64
                } else if id == 0x6863 {
                    56
                } else {
                    36
                }
            },
            AmdGpuArchitecture::GCN4 => {
                if id == 0x67DF {
                    36
                } else if id == 0x67CF {
                    32
                } else {
                    24
                }
            },
            _ => 16,
        };
        device.stream_processors = device.compute_units * 64;
        device.supports_hw_cursor = true;
        device.supports_3d = true;
        device.supports_compute = true;
        device.supports_video_decode = true;
        device.supports_video_encode = match device.architecture {
            AmdGpuArchitecture::Unknown => false,
            _ => true,
        };
        device
    }

    /// Get supported display modes
    pub fn get_supported_modes(&self) -> (modes: Vec<DisplayMode>)
        ensures
            modes@ == amd_modes(),
    {
        let modes = vec![
            DisplayMode { width: 3840, height: 2160, bpp: 32, refresh_rate: 60 },
            DisplayMode { width: 2560, height: 1440, bpp: 32, refresh_rate: 144 },
            DisplayMode { width: 1920, height: 1080, bpp: 32, refresh_rate: 144 },
            DisplayMode { width: 1920, height: 1080, bpp: 32, refresh_rate: 60 },
            DisplayMode { width: 1680, height: 1050, bpp: 32, refresh_rate: 60 },
            DisplayMode { width: 1600, height: 900, bpp: 32, refresh_rate: 60 },
            DisplayMode { width: 1366, height: 768, bpp: 32, refresh_rate: 60 },
            DisplayMode { width: 1280, height: 1024, bpp: 32, refresh_rate: 60 },
            DisplayMode { width: 1280, height: 720, bpp: 32, refresh_rate: 60 },
            DisplayMode { width: 1024, height: 768, bpp: 32, refresh_rate: 60 },
            DisplayMode { width: 800, height: 600, bpp: 32, refresh_rate: 60 },
            DisplayMode { width: 640, height: 480, bpp: 32, refresh_rate: 60 },
        ];
        assert(modes@ =~= amd_modes());
        modes
    }
}

/// Initializes the AMD GPU device: refused for device ID 0.
pub fn initialize_device(device: &AmdGpuDevice) -> (r: Result<(), AmdGpuError>)
    ensures
        r == if device@.device_id == 0 {
            Err::<(), AmdGpuError>(AmdGpuError::UnsupportedDevice)
        } else {
            Ok(())
        },
{
    if device.device_id == 0 {
        return Err(AmdGpuError::UnsupportedDevice);
    }
    Ok(())
}

/// Retrieves the name of the AMD GPU device
pub fn get_device_name(device: &AmdGpuDevice) -> (n: &str)
    ensures
        n@ == device@.name,
{
    device.name.as_str()
}

/// Map memory-mapped I/O region: refused for a zero base or size.
pub fn map_mmio(base: usize, size: usize) -> (r: Result<(), AmdGpuError>)
    ensures
        r == if base == 0 || size == 0 {
            Err::<(), AmdGpuError>(AmdGpuError::InitializationFailed)
        } else {
            Ok(())
        },
{
    if base == 0 || size == 0 {
        return Err(AmdGpuError::InitializationFailed);
    }
    Ok(())
}

/// Unmap memory-mapped I/O region: refused for a zero base or size.
pub fn unmap_mmio(base: usize, size: usize) -> (r: Result<(), AmdGpuError>)
    ensures
        r == if base == 0 || size == 0 {
            Err::<(), AmdGpuError>(AmdGpuError::InitializationFailed)
        } else {
            Ok(())
        },
{
    if base == 0 || size == 0 {
        return Err(AmdGpuError::InitializationFailed);
    }
    Ok(())
}

/// Delay for a specified number of milliseconds: a loop of `ms` empty turns.
pub fn delay_ms(ms: u32) {
    let mut k: u32 = 0;
    while k < ms
        invariant
            k <= ms,
        decreases ms - k,
    {
        k += 1;
    }
}

} // verus!

verus! {

/// The register setting for each kind of memory.
pub open spec fn mem_config_of(t: AmdMemoryType) -> u32 {
    match t {
        AmdMemoryType::GDDR6 => 3,
        AmdMemoryType::GDDR5 => 2,
        AmdMemoryType::HBM2 => 5,
        AmdMemoryType::HBM => 4,
        _ => 1,
    }
}

impl AmdGpuDevice {
    /// Reset the GPU to a known state: pulse the CRTC control register, then
    /// wait for the CRTC status to report ready.
    pub fn reset(&mut self) -> (r: Result<(), AmdGpuError>)
        ensures
            old(self)@.mmio_base == 0 ==> r == Err::<(), AmdGpuError>(AmdGpuError::InitializationFailed)
                && final(self)@ == old(self)@,
            old(self)@.mmio_base != 0 ==> final(self)@ == (AmdDeviceView {
                mmio: old(self)@.mmio.insert(registers::MMIO_CRTC_CONTROL, 1),
                ..old(self)@
            }) && r == if reg_value(old(self)@.mmio, registers::MMIO_CRTC_STATUS) & 1 != 0 {
                Ok::<(), AmdGpuError>(())
            } else {
                Err(AmdGpuError::InitializationFailed)
            },
    {
        if self.mmio_base == 0 {
            return Err(AmdGpuError::InitializationFailed);
        }
        let ghost start = self@;
        self.mmio.write(registers::MMIO_CRTC_CONTROL, 0);
        delay_ms(10);
        self.mmio.write(registers::MMIO_CRTC_CONTROL, 1);
        assert(self@.mmio =~= start.mmio.insert(registers::MMIO_CRTC_CONTROL, 1));
        if (self.mmio.read(registers::MMIO_CRTC_STATUS) & 0x1) != 0 {
            return Ok(());
        }
        let mut timeout: u32 = 1000;
        while timeout > 0
            invariant
                start == old(self)@,
                start.mmio_base != 0,
                self@ == (AmdDeviceView { mmio: start.mmio.insert(registers::MMIO_CRTC_CONTROL, 1), ..start }),
                reg_value(start.mmio, registers::MMIO_CRTC_STATUS) & 1 == 0,
            decreases timeout,
        {
            let status = self.mmio.read(registers::MMIO_CRTC_STATUS);
            if (status & 0x1) != 0 {
                return Ok(());
            }
            delay_ms(1);
            timeout -= 1;
        }
        Err(AmdGpuError::InitializationFailed)
    }

    /// Initialize the memory controller: set it for the memory type, enable
    /// it, then check that its status reports it ready.
    pub fn init_memory_controller(&mut self) -> (r: Result<(), AmdGpuError>)
        ensures
            old(self)@.mmio_base == 0 ==> r == Err::<(), AmdGpuError>(AmdGpuError::InitializationFailed)
                && final(self)@ == old(self)@,
            old(self)@.mmio_base != 0 ==> final(self)@ == (AmdDeviceView {
                mmio: old(self)@.mmio.insert(registers::MMIO_MEM_CONFIG, mem_config_of(old(self)@.memory_type)).insert(
                    registers::MMIO_MEM_CONTROL,
                    1,
                ),
                ..old(self)@
            }) && r == if reg_value(old(self)@.mmio, registers::MMIO_MEM_STATUS) & 1 == 0 {
                Err::<(), AmdGpuError>(AmdGpuError::InitializationFailed)
            } else {
                Ok(())
            },
    {
        if self.mmio_base == 0 {
            return Err(AmdGpuError::InitializationFailed);
        }
        let mem_config: u32 = match self.memory_type {
            AmdMemoryType::GDDR6 => 0x00000003,
            AmdMemoryType::GDDR5 => 0x00000002,
            AmdMemoryType::HBM2 => 0x00000005,
            AmdMemoryType::HBM => 0x00000004,
            _ => 0x00000001,
        };
        self.mmio.write(registers::MMIO_MEM_CONFIG, mem_config);
        self.mmio.write(registers::MMIO_MEM_CONTROL, 0x00000001);
        let status = self.mmio.read(registers::MMIO_MEM_STATUS);
        if (status & 0x1) == 0 {
            return Err(AmdGpuError::InitializationFailed);
        }
        Ok(())
    }

    /// Initialize the 2D engine: reset it, then enable it.
    pub fn init_2d_engine(&mut self) -> (r: Result<(), AmdGpuError>)
        ensures
            old(self)@.mmio_base == 0 ==> r == Err::<(), AmdGpuError>(AmdGpuError::InitializationFailed)
                && final(self)@ == old(self)@,
            old(self)@.mmio_base != 0 ==> r == Ok::<(), AmdGpuError>(()) && final(self)@ == (AmdDeviceView {
                mmio: old(self)@.mmio.insert(registers::MMIO_2D_CONTROL, 1),
                ..old(self)@
            }),
    {
        if self.mmio_base == 0 {
            return Err(AmdGpuError::InitializationFailed);
        }
        let ghost start = self@;
        self.mmio.write(registers::MMIO_2D_CONTROL, 0x00000000);
        delay_ms(1);
        self.mmio.write(registers::MMIO_2D_CONTROL, 0x00000001);
        assert(self@.mmio =~= start.mmio.insert(registers::MMIO_2D_CONTROL, 1));
        Ok(())
    }

    /// Initialize the 3D engine: reset it, then enable it; refused without
    /// 3D support.
    pub fn init_3d_engine(&mut self) -> (r: Result<(), AmdGpuError>)
        ensures
            (old(self)@.mmio_base == 0 || !old(self)@.supports_3d) ==> r == Err::<(), AmdGpuError>(
                AmdGpuError::UnsupportedDevice,
            ) && final(self)@ == old(self)@,
            !(old(self)@.mmio_base == 0 || !old(self)@.supports_3d) ==> r == Ok::<(), AmdGpuError>(())
                && final(self)@ == (AmdDeviceView {
                mmio: old(self)@.mmio.insert(registers::MMIO_3D_CONTROL, 1),
                ..old(self)@
            }),
    {
        if self.mmio_base == 0 || !self.supports_3d {
            return Err(AmdGpuError::UnsupportedDevice);
        }
        let ghost start = self@;
        self.mmio.write(registers::MMIO_3D_CONTROL, 0x00000000);
        delay_ms(1);
        self.mmio.write(registers::MMIO_3D_CONTROL, 0x00000001);
        assert(self@.mmio =~= start.mmio.insert(registers::MMIO_3D_CONTROL, 1));
        Ok(())
    }
}

} // verus!

verus! {

/// The bytes each texel of a format takes (per 4x4 block for the
/// compressed formats).
pub open spec fn texel_bytes(f: TextureFormat) -> usize {
    match f {
        TextureFormat::RGBA8 | TextureFormat::BGRA8 => 4,
        TextureFormat::RGB8 | TextureFormat::BGR8 => 3,
        TextureFormat::RG8 => 2,
        TextureFormat::A8 | TextureFormat::R8 => 1,
        TextureFormat::RGB10A2 => 4,
        TextureFormat::BC1 => 8,
        TextureFormat::BC2 | TextureFormat::BC3 => 16,
        TextureFormat::BC4 => 8,
        TextureFormat::BC5 => 16,
        TextureFormat::BC6H | TextureFormat::BC7 => 16,
    }
}

/// The first position of an allocation at this address, if any.
pub open spec fn first_allocation_at(allocs: Seq<MemoryAllocation>, address: u64) -> Option<int> {
    if exists|i: int| 0 <= i < allocs.len() && allocs[i].address == address
        && forall|k: int| 0 <= k < i ==> allocs[k].address != address {
        Some(choose|i: int| 0 <= i < allocs.len() && allocs[i].address == address
            && forall|k: int| 0 <= k < i ==> allocs[k].address != address)
    } else {
        None
    }
}

/// The first position of a texture with this id, if any.
pub open spec fn first_texture_with(textures: Seq<Texture>, id: u32) -> Option<int> {
    if exists|i: int| 0 <= i < textures.len() && textures[i].id == id
        && forall|k: int| 0 <= k < i ==> textures[k].id != id {
        Some(choose|i: int| 0 <= i < textures.len() && textures[i].id == id
            && forall|k: int| 0 <= k < i ==> textures[k].id != id)
    } else {
        None
    }
}

/// Every texture's id is below the next id to hand out.
pub open spec fn ids_below(v: AmdDeviceView) -> bool {
    forall|k: int| 0 <= k < v.textures.len() ==> (#[trigger] v.textures[k]).id < v.next_texture_id
}

/// A texture made by `create_texture` is destroyed by the first
/// `destroy_texture` of its id and not found by a second: where every
/// texture's id is below the next id (so at power-on), the new texture is the
/// only one with its id; its memory is found; after it is dropped no texture
/// has that id; and the ids stay below the next one throughout.
pub proof fn lemma_texture_destroyed_once(v: AmdDeviceView, t: Texture)
    requires
        ids_below(v),
        t.id == v.next_texture_id,
        v.next_texture_id < u32::MAX,
    ensures
        ({
            let v1 = AmdDeviceView {
                allocations: v.allocations.push(t.memory),
                textures: v.textures.push(t),
                next_texture_id: (t.id + 1) as u32,
                ..v
            };
            let k = v1.textures.len() - 1;
            &&& ids_below(v1)
            &&& first_texture_with(v1.textures, t.id) == Some(k)
            &&& first_allocation_at(v1.allocations, t.memory.address) is Some
            &&& first_texture_with(v1.textures.remove(k), t.id) is None
            &&& ids_below(AmdDeviceView { textures: v1.textures.remove(k), ..v1 })
        }),
{
    let v1 = AmdDeviceView {
        allocations: v.allocations.push(t.memory),
        textures: v.textures.push(t),
        next_texture_id: (t.id + 1) as u32,
        ..v
    };
    let k = v1.textures.len() - 1;
    assert(forall|j: int| 0 <= j < k ==> v1.textures[j] == v.textures[j]);
    assert(forall|j: int| 0 <= j < k ==> (#[trigger] v1.textures[j]).id != t.id);
    assert(v1.textures[k] == t);
    let ghost w = choose|i: int| 0 <= i < v1.textures.len() && v1.textures[i].id == t.id
        && forall|m: int| 0 <= m < i ==> v1.textures[m].id != t.id;
    assert(0 <= k < v1.textures.len() && v1.textures[k].id == t.id
        && forall|m: int| 0 <= m < k ==> v1.textures[m].id != t.id);
    assert(w == k);
    let n = v1.allocations.len() - 1;
    assert(v1.allocations[n].address == t.memory.address);
    if !(exists|i: int| 0 <= i < v1.allocations.len() && v1.allocations[i].address == t.memory.address
        && forall|m: int| 0 <= m < i ==> v1.allocations[m].address != t.memory.address) {
        assert(exists|i: int| 0 <= i < v1.allocations.len() && v1.allocations[i].address == t.memory.address) by {
            assert(v1.allocations[n].address == t.memory.address);
        }
        let i0 = choose|i: int| 0 <= i < v1.allocations.len() && v1.allocations[i].address == t.memory.address;
        lemma_first_address(v1.allocations, t.memory.address, i0);
    }
    let rest = v1.textures.remove(k);
    assert(rest =~= v.textures);
}

/// Where some allocation has the address, a first one has it.
proof fn lemma_first_address(allocs: Seq<MemoryAllocation>, address: u64, i: int)
    requires
        0 <= i < allocs.len(),
        allocs[i].address == address,
    ensures
        exists|j: int| 0 <= j < allocs.len() && allocs[j].address == address
            && forall|m: int| 0 <= m < j ==> allocs[m].address != address,
    decreases i,
{
    if exists|m: int| 0 <= m < i && allocs[m].address == address {
        let m0 = choose|m: int| 0 <= m < i && allocs[m].address == address;
        lemma_first_address(allocs, address, m0);
    } else {
        assert(forall|m: int| 0 <= m < i ==> allocs[m].address != address);
    }
}

impl AmdGpuDevice {
    /// Set the display mode: the CRTC gets the size and the pitch (width
    /// times bytes per pixel), the display is switched off and on again.
    pub fn set_display_mode(&mut self, width: u32, height: u32, refresh_rate: u32) -> (r: Result<(), AmdGpuError>)
        requires
            width * height <= u32::MAX,
            width * height * refresh_rate <= u32::MAX,
            width * (old(self)@.framebuffer_bpp / 8) <= u32::MAX,
        ensures
            old(self)@.mmio_base == 0 ==> r == Err::<(), AmdGpuError>(AmdGpuError::InitializationFailed)
                && final(self)@ == old(self)@,
            old(self)@.mmio_base != 0 ==> r == Ok::<(), AmdGpuError>(()) && final(self)@ == (AmdDeviceView {
                framebuffer_width: width,
                framebuffer_height: height,
                framebuffer_pitch: (width * (old(self)@.framebuffer_bpp / 8)) as u32,
                mmio: old(self)@.mmio.insert(registers::MMIO_CRTC_SIZE, (height << 16u32) | width).insert(
                    registers::MMIO_CRTC_PITCH,
                    (width * (old(self)@.framebuffer_bpp / 8)) as u32,
                ).insert(registers::MMIO_DISPLAY_CONTROL, 7),
                ..old(self)@
            }),
    {
        if self.mmio_base == 0 {
            return Err(AmdGpuError::InitializationFailed);
        }
        let ghost start = self@;
        assert(width * height * refresh_rate == (width * height) * refresh_rate) by (nonlinear_arith);
        let _pixel_clock = width * height * refresh_rate;
        self.mmio.write(registers::MMIO_DISPLAY_CONTROL, 0);
        let size_value = (height << 16) | width;
        self.mmio.write(registers::MMIO_CRTC_SIZE, size_value);
        let pitch = width * (self.framebuffer_bpp / 8) as u32;
        self.mmio.write(registers::MMIO_CRTC_PITCH, pitch);
        self.framebuffer_width = width;
        self.framebuffer_height = height;
        self.framebuffer_pitch = pitch;
        self.mmio.write(
            registers::MMIO_DISPLAY_CONTROL,
            commands::DISPLAY_ENABLE | commands::DISPLAY_VSYNC | commands::DISPLAY_HSYNC,
        );
        assert(commands::DISPLAY_ENABLE | commands::DISPLAY_VSYNC | commands::DISPLAY_HSYNC == 7) by (bit_vector);
        assert(self@.mmio =~= start.mmio.insert(registers::MMIO_CRTC_SIZE, size_value).insert(
            registers::MMIO_CRTC_PITCH,
            pitch,
        ).insert(registers::MMIO_DISPLAY_CONTROL, 7));
        Ok(())
    }

    /// Set the framebuffer address: the CRTC base gets its low 32 bits.
    pub fn set_framebuffer_address(&mut self, address: u64) -> (r: Result<(), AmdGpuError>)
        ensures
            old(self)@.mmio_base == 0 ==> r == Err::<(), AmdGpuError>(AmdGpuError::InitializationFailed)
                && final(self)@ == old(self)@,
            old(self)@.mmio_base != 0 ==> r == Ok::<(), AmdGpuError>(()) && final(self)@ == (AmdDeviceView {
                framebuffer_address: address,
                mmio: old(self)@.mmio.insert(registers::MMIO_CRTC_BASE, address as u32),
                ..old(self)@
            }),
    {
        if self.mmio_base == 0 {
            return Err(AmdGpuError::InitializationFailed);
        }
        self.mmio.write(registers::MMIO_CRTC_BASE, address as u32);
        self.framebuffer_address = address;
        Ok(())
    }

    /// Set power state
    pub fn set_power_state(&mut self, state: u32) -> (r: Result<(), AmdGpuError>)
        ensures
            old(self)@.mmio_base == 0 ==> r == Err::<(), AmdGpuError>(AmdGpuError::InitializationFailed)
                && final(self)@ == old(self)@,
            old(self)@.mmio_base != 0 ==> r == Ok::<(), AmdGpuError>(()) && final(self)@ == (AmdDeviceView {
                current_power_state: state,
                mmio: old(self)@.mmio.insert(registers::MMIO_POWER_STATE, state).insert(registers::MMIO_POWER_CONTROL, 1),
                ..old(self)@
            }),
    {
        if self.mmio_base == 0 {
            return Err(AmdGpuError::InitializationFailed);
        }
        self.mmio.write(registers::MMIO_POWER_STATE, state);
        self.mmio.write(registers::MMIO_POWER_CONTROL, 0x00000001);
        self.current_power_state = state;
        Ok(())
    }

    /// Allocate GPU memory: recorded at 0x1000 past the VRAM base (past 0
    /// for system memory); refused before initialization, and for more VRAM
    /// than the device has.
    pub fn allocate_memory(&mut self, size: usize, vram: bool) -> (r: Result<MemoryAllocation, AmdGpuError>)
        requires
            old(self)@.initialized && vram ==> old(self)@.vram_base + 0x1000 <= u64::MAX,
        ensures
            !old(self)@.initialized ==> r == Err::<MemoryAllocation, AmdGpuError>(AmdGpuError::NotInitialized)
                && final(self)@ == old(self)@,
            old(self)@.initialized && vram && size > old(self)@.vram_size ==> r == Err::<
                MemoryAllocation,
                AmdGpuError,
            >(AmdGpuError::OutOfMemory) && final(self)@ == old(self)@,
            old(self)@.initialized && !(vram && size > old(self)@.vram_size) ==> {
                let a = MemoryAllocation {
                    address: if vram { (old(self)@.vram_base + 0x1000) as u64 } else { 0x1000 },
                    size,
                    is_vram: vram,
                };
                &&& r == Ok::<MemoryAllocation, AmdGpuError>(a)
                &&& final(self)@ == (AmdDeviceView { allocations: old(self)@.allocations.push(a), ..old(self)@ })
            },
    {
        if !self.initialized {
            return Err(AmdGpuError::NotInitialized);
        }
        if vram && size > self.vram_size {
            return Err(AmdGpuError::OutOfMemory);
        }
        let allocation = MemoryAllocation {
            address: if vram { self.vram_base + 0x1000 } else { 0x1000 },
            size,
            is_vram: vram,
        };
        self.allocations.push(allocation);
        Ok(allocation)
    }

    /// Free GPU memory: drops the first allocation at this address.
    pub fn free_memory(&mut self, address: u64) -> (r: Result<(), AmdGpuError>)
        ensures
            !old(self)@.initialized ==> r == Err::<(), AmdGpuError>(AmdGpuError::NotInitialized)
                && final(self)@ == old(self)@,
            old(self)@.initialized ==> match first_allocation_at(old(self)@.allocations, address) {
                Some(i) => r == Ok::<(), AmdGpuError>(()) && final(self)@ == (AmdDeviceView {
                    allocations: old(self)@.allocations.remove(i),
                    ..old(self)@
                }),
                None => r == Err::<(), AmdGpuError>(AmdGpuError::InvalidParameter) && final(self)@ == old(self)@,
            },
    {
        if !self.initialized {
            return Err(AmdGpuError::NotInitialized);
        }
        let mut i: usize = 0;
        while i < self.allocations.len()
            invariant
                0 <= i <= self.allocations@.len(),
                *self == *old(self),
                old(self)@.initialized,
                forall|k: int| 0 <= k < i ==> self.allocations@[k].address != address,
            decreases self.allocations@.len() - i,
        {
            if self.allocations[i].address == address {
                let ghost allocs = self.allocations@;
                proof {
                    let c = choose|c: int| 0 <= c < allocs.len() && allocs[c].address == address
                        && forall|k: int| 0 <= k < c ==> allocs[k].address != address;
                    if c < i {
                        assert(allocs[c].address != address);
                    } else if i < c {
                        assert(allocs[i as int].address != address);
                    }
                }
                self.allocations.remove(i);
                return Ok(());
            }
            i += 1;
        }
        Err(AmdGpuError::InvalidParameter)
    }
}

} // verus!

verus! {

/// The 2D engine is idle: the busy bit (31) of its control register is clear.
pub open spec fn idle_2d(m: Map<usize, u32>) -> bool {
    reg_value(m, registers::MMIO_2D_CONTROL) & 0x80000000 == 0
}

/// What `wait_for_2d_idle` answers for a device.
pub open spec fn wait_2d_result(v: AmdDeviceView) -> Result<(), AmdGpuError> {
    if v.mmio_base == 0 {
        Err(AmdGpuError::InitializationFailed)
    } else if idle_2d(v.mmio) {
        Ok(())
    } else {
        Err(AmdGpuError::OperationFailed)
    }
}

/// The registers after a fill command of the 2D engine: colour,
/// destination, pitch, size (height in the high half), then the command.
pub open spec fn fill_command(m: Map<usize, u32>, color: u32, dst: u32, pitch: u32, size: u32) -> Map<usize, u32> {
    m.insert(registers::MMIO_2D_COLOR, color).insert(registers::MMIO_2D_DST_ADDR, dst).insert(
        registers::MMIO_2D_DST_PITCH,
        pitch,
    ).insert(registers::MMIO_2D_SIZE, size).insert(registers::MMIO_2D_CONTROL, 1)
}

/// Where a rectangle starts in video memory, as the 2D engine addresses it.
pub open spec fn rect_address(v: AmdDeviceView, rect: Rect) -> int {
    (v.framebuffer_address as u32) + (rect.y as u32) * v.framebuffer_pitch + (rect.x as u32) * (v.framebuffer_bpp / 8)
}

impl AmdGpuDevice {
    /// Wait for 2D engine to become idle
    pub fn wait_for_2d_idle(&self) -> (r: Result<(), AmdGpuError>)
        ensures
            r == wait_2d_result(self@),
    {
        if self.mmio_base == 0 {
            return Err(AmdGpuError::InitializationFailed);
        }
        let mut timeout: u32 = 1000;
        while timeout > 0
            invariant
                self@.mmio_base != 0,
            decreases timeout,
        {
            let status = self.mmio.read(registers::MMIO_2D_CONTROL);
            if (status & 0x80000000) == 0 {
                return Ok(());
            }
            delay_ms(1);
            timeout -= 1;
        }
        if (self.mmio.read(registers::MMIO_2D_CONTROL) & 0x80000000) == 0 {
            return Ok(());
        }
        Err(AmdGpuError::OperationFailed)
    }

    /// Wait for 3D engine to become idle
    pub fn wait_for_3d_idle(&self) -> (r: Result<(), AmdGpuError>)
        ensures
            r == if self@.mmio_base == 0 || !self@.supports_3d {
                Err::<(), AmdGpuError>(AmdGpuError::UnsupportedDevice)
            } else if reg_value(self@.mmio, registers::MMIO_3D_STATUS) & 1 == 0 {
                Ok(())
            } else {
                Err(AmdGpuError::OperationFailed)
            },
    {
        if self.mmio_base == 0 || !self.supports_3d {
            return Err(AmdGpuError::UnsupportedDevice);
        }
        let mut timeout: u32 = 1000;
        while timeout > 0
            invariant
                self@.mmio_base != 0 && self@.supports_3d,
            decreases timeout,
        {
            let status = self.mmio.read(registers::MMIO_3D_STATUS);
            if (status & 0x1) == 0 {
                return Ok(());
            }
            delay_ms(1);
            timeout -= 1;
        }
        if (self.mmio.read(registers::MMIO_3D_STATUS) & 0x1) == 0 {
            return Ok(());
        }
        Err(AmdGpuError::OperationFailed)
    }

    /// Clear the screen with a color: a fill command over the whole
    /// framebuffer once the 2D engine is idle.
    pub fn clear_screen(&mut self, color: u32) -> (r: Result<(), AmdGpuError>)
        ensures
            !old(self)@.initialized ==> r == Err::<(), AmdGpuError>(AmdGpuError::NotInitialized)
                && final(self)@ == old(self)@,
            old(self)@.initialized && wait_2d_result(old(self)@) is Err ==> r == wait_2d_result(old(self)@)
                && final(self)@ == old(self)@,
            old(self)@.initialized && wait_2d_result(old(self)@) is Ok ==> r == Ok::<(), AmdGpuError>(())
                && final(self)@ == (AmdDeviceView {
                mmio: fill_command(
                    old(self)@.mmio,
                    color,
                    old(self)@.framebuffer_address as u32,
                    old(self)@.framebuffer_pitch,
                    (old(self)@.framebuffer_height << 16u32) | old(self)@.framebuffer_width,
                ),
                ..old(self)@
            }),
    {
        if !self.initialized {
            return Err(AmdGpuError::NotInitialized);
        }
        self.wait_for_2d_idle()?;
        self.mmio.write(registers::MMIO_2D_COLOR, color);
        self.mmio.write(registers::MMIO_2D_DST_ADDR, self.framebuffer_address as u32);
        self.mmio.write(registers::MMIO_2D_DST_PITCH, self.framebuffer_pitch);
        let size_value = (self.framebuffer_height << 16) | self.framebuffer_width;
        self.mmio.write(registers::MMIO_2D_SIZE, size_value);
        self.mmio.write(registers::MMIO_2D_CONTROL, 0x00000001 | commands::CMD_2D_FILL_RECT);
        assert(0x00000001u32 | commands::CMD_2D_FILL_RECT == 1) by (bit_vector);
        Ok(())
    }

    /// Fill a rectangle with a color: a fill command at the rectangle's
    /// address once the 2D engine is idle.
    pub fn fill_rect(&mut self, rect: Rect, color: u32) -> (r: Result<(), AmdGpuError>)
        requires
            old(self)@.initialized && wait_2d_result(old(self)@) is Ok ==> rect_address(old(self)@, rect) <= u32::MAX,
        ensures
            !old(self)@.initialized ==> r == Err::<(), AmdGpuError>(AmdGpuError::NotInitialized)
                && final(self)@ == old(self)@,
            old(self)@.initialized && wait_2d_result(old(self)@) is Err ==> r == wait_2d_result(old(self)@)
                && final(self)@ == old(self)@,
            old(self)@.initialized && wait_2d_result(old(self)@) is Ok ==> r == Ok::<(), AmdGpuError>(())
                && final(self)@ == (AmdDeviceView {
                mmio: fill_command(
                    old(self)@.mmio,
                    color,
                    rect_address(old(self)@, rect) as u32,
                    old(self)@.framebuffer_pitch,
                    (rect.height << 16u32) | rect.width,
                ),
                ..old(self)@
            }),
    {
        if !self.initialized {
            return Err(AmdGpuError::NotInitialized);
        }
        self.wait_for_2d_idle()?;
        self.mmio.write(registers::MMIO_2D_COLOR, color);
        let bpp_bytes = (self.framebuffer_bpp / 8) as u32;
        assert((rect.y as u32) * self.framebuffer_pitch <= u32::MAX && (rect.x as u32) * bpp_bytes <= u32::MAX) by (nonlinear_arith)
            requires
                (self.framebuffer_address as u32) + (rect.y as u32) * self.framebuffer_pitch + (rect.x as u32) * bpp_bytes <= u32::MAX,
        ;
        let offset = (rect.y as u32 * self.framebuffer_pitch) + (rect.x as u32 * bpp_bytes);
        let dst_addr = self.framebuffer_address as u32 + offset;
        self.mmio.write(registers::MMIO_2D_DST_ADDR, dst_addr);
        self.mmio.write(registers::MMIO_2D_DST_PITCH, self.framebuffer_pitch);
        let size_value = (rect.height << 16) | rect.width;
        self.mmio.write(registers::MMIO_2D_SIZE, size_value);
        self.mmio.write(registers::MMIO_2D_CONTROL, 0x00000001 | commands::CMD_2D_FILL_RECT);
        assert(0x00000001u32 | commands::CMD_2D_FILL_RECT == 1) by (bit_vector);
        Ok(())
    }
}

} // verus!


verus! {

/// The allocations after freeing, in turn, the first one at each address.
pub open spec fn free_each(allocs: Seq<MemoryAllocation>, addresses: Seq<u64>) -> Seq<MemoryAllocation>
    decreases addresses.len(),
{
    if addresses.len() == 0 {
        allocs
    } else {
        let before = free_each(allocs, addresses.drop_last());
        match first_allocation_at(before, addresses.last()) {
            Some(i) => before.remove(i),
            None => before,
        }
    }
}

impl AmdGpuDevice {
    /// Create a texture: allocates its bytes in VRAM (width x height x the
    /// format's bytes per texel) and records it under the next id.
    pub fn create_texture(&mut self, width: u32, height: u32, format: TextureFormat, data: &[u8]) -> (r: Result<u32, AmdGpuError>)
        requires
            old(self)@.initialized ==> width as int * height as int * texel_bytes(format) <= usize::MAX,
            old(self)@.initialized ==> old(self)@.vram_base + 0x1000 <= u64::MAX,
            old(self)@.initialized ==> old(self)@.next_texture_id < u32::MAX,
        ensures
            !old(self)@.initialized ==> r == Err::<u32, AmdGpuError>(AmdGpuError::NotInitialized)
                && final(self)@ == old(self)@,
            old(self)@.initialized && width as int * height as int * texel_bytes(format) > old(self)@.vram_size ==> r
                == Err::<u32, AmdGpuError>(AmdGpuError::OutOfMemory) && final(self)@ == old(self)@,
            old(self)@.initialized && width as int * height as int * texel_bytes(format) <= old(self)@.vram_size ==> {
                let a = MemoryAllocation {
                    address: (old(self)@.vram_base + 0x1000) as u64,
                    size: (width as int * height as int * texel_bytes(format)) as usize,
                    is_vram: true,
                };
                let id = old(self)@.next_texture_id;
                &&& r == Ok::<u32, AmdGpuError>(id)
                &&& final(self)@ == (AmdDeviceView {
                    allocations: old(self)@.allocations.push(a),
                    textures: old(self)@.textures.push(Texture { id, width, height, format, memory: a }),
                    next_texture_id: (id + 1) as u32,
                    ..old(self)@
                })
            },
    {
        if !self.initialized {
            return Err(AmdGpuError::NotInitialized);
        }
        let bytes_per_pixel: usize = match format {
            TextureFormat::RGBA8 | TextureFormat::BGRA8 => 4,
            TextureFormat::RGB8 | TextureFormat::BGR8 => 3,
            TextureFormat::RG8 => 2,
            TextureFormat::A8 | TextureFormat::R8 => 1,
            TextureFormat::RGB10A2 => 4,
            TextureFormat::BC1 => 8,
            TextureFormat::BC2 | TextureFormat::BC3 => 16,
            TextureFormat::BC4 => 8,
            TextureFormat::BC5 => 16,
            TextureFormat::BC6H | TextureFormat::BC7 => 16,
        };
        assert(width as int * height as int <= usize::MAX) by (nonlinear_arith)
            requires
                width as int * height as int * bytes_per_pixel <= usize::MAX,
                bytes_per_pixel >= 1,
        ;
        let size = width as usize * height as usize * bytes_per_pixel;
        let memory = self.allocate_memory(size, true)?;
        let texture_id = self.next_texture_id;
        self.next_texture_id += 1;
        let texture = Texture { id: texture_id, width, height, format, memory };
        self.textures.push(texture);
        Ok(texture_id)
    }

    /// The position of the first texture with this id.
    fn find_texture(&self, texture_id: u32) -> (r: Option<usize>)
        ensures
            match r {
                Some(k) => first_texture_with(self@.textures, texture_id) == Some(k as int) && k < self@.textures.len(),
                None => first_texture_with(self@.textures, texture_id) is None,
            },
    {
        let mut k: usize = 0;
        while k < self.textures.len()
            invariant
                0 <= k <= self.textures@.len(),
                forall|m: int| 0 <= m < k ==> self.textures@[m].id != texture_id,
            decreases self.textures@.len() - k,
        {
            if self.textures[k].id == texture_id {
                let ghost ts = self.textures@;
                proof {
                    let c = choose|c: int| 0 <= c < ts.len() && ts[c].id == texture_id
                        && forall|m: int| 0 <= m < c ==> ts[m].id != texture_id;
                    if c < k {
                        assert(ts[c].id != texture_id);
                    } else if k < c {
                        assert(ts[k as int].id != texture_id);
                    }
                }
                return Some(k);
            }
            k += 1;
        }
        None
    }

    /// Destroy a texture: frees the first allocation at its address, then
    /// drops the first texture with this id.
    pub fn destroy_texture(&mut self, texture_id: u32) -> (r: Result<(), AmdGpuError>)
        ensures
            !old(self)@.initialized ==> r == Err::<(), AmdGpuError>(AmdGpuError::NotInitialized)
                && final(self)@ == old(self)@,
            old(self)@.initialized ==> match first_texture_with(old(self)@.textures, texture_id) {
                None => r == Err::<(), AmdGpuError>(AmdGpuError::InvalidParameter) && final(self)@ == old(self)@,
                Some(t) => match first_allocation_at(old(self)@.allocations, old(self)@.textures[t].memory.address) {
                    None => r == Err::<(), AmdGpuError>(AmdGpuError::InvalidParameter) && final(self)@ == old(self)@,
                    Some(i) => r == Ok::<(), AmdGpuError>(()) && final(self)@ == (AmdDeviceView {
                        allocations: old(self)@.allocations.remove(i),
                        textures: old(self)@.textures.remove(t),
                        ..old(self)@
                    }),
                },
            },
    {
        if !self.initialized {
            return Err(AmdGpuError::NotInitialized);
        }
        match self.find_texture(texture_id) {
            Some(k) => {
                let address = self.textures[k].memory.address;
                self.free_memory(address)?;
                self.textures.remove(k);
                Ok(())
            },
            None => Err(AmdGpuError::InvalidParameter),
        }
    }
    /// Shutdown the GPU: display off, the textures' memory freed and the
    /// textures dropped, standby power, MMIO unmapped. An unmapping that
    /// fails (zero base or size) is reported, with the device still marked
    /// initialized.
    pub fn shutdown(&mut self) -> (r: Result<(), AmdGpuError>)
        ensures
            !old(self)@.initialized ==> r == Ok::<(), AmdGpuError>(()) && final(self)@ == old(self)@,
            old(self)@.initialized ==> {
                let v = old(self)@;
                let freed = free_each(v.allocations, v.textures.map_values(|t: Texture| t.memory.address));
                let m0 = v.mmio.insert(registers::MMIO_DISPLAY_CONTROL, 0);
                let m1 = if v.mmio_base != 0 {
                    m0.insert(registers::MMIO_POWER_STATE, commands::POWER_STANDBY).insert(registers::MMIO_POWER_CONTROL, 1)
                } else {
                    m0
                };
                let power = if v.mmio_base != 0 { commands::POWER_STANDBY } else { v.current_power_state };
                let failed = v.mmio_base == 0 || v.mmio_size == 0;
                &&& r == if failed { Err::<(), AmdGpuError>(AmdGpuError::InitializationFailed) } else { Ok(()) }
                &&& final(self)@ == (AmdDeviceView {
                    mmio: m1,
                    allocations: freed,
                    textures: Seq::empty(),
                    current_power_state: power,
                    initialized: failed,
                    ..v
                })
            },
    {
        if !self.initialized {
            return Ok(());
        }
        let ghost v = self@;
        self.mmio.write(registers::MMIO_DISPLAY_CONTROL, 0);
        let mut texture_addresses: Vec<u64> = Vec::new();
        let mut k: usize = 0;
        while k < self.textures.len()
            invariant
                0 <= k <= self.textures@.len(),
                self.textures@ == v.textures,
                texture_addresses@ == v.textures.map_values(|t: Texture| t.memory.address).take(k as int),
            decreases self.textures@.len() - k,
        {
            texture_addresses.push(self.textures[k].memory.address);
            k += 1;
            assert(texture_addresses@ =~= v.textures.map_values(|t: Texture| t.memory.address).take(k as int));
        }
        let ghost addrs = v.textures.map_values(|t: Texture| t.memory.address);
        assert(texture_addresses@ =~= addrs);
        let mut j: usize = 0;
        while j < texture_addresses.len()
            invariant
                0 <= j <= texture_addresses@.len(),
                texture_addresses@ == addrs,
                self.initialized,
                self@ == (AmdDeviceView {
                    mmio: v.mmio.insert(registers::MMIO_DISPLAY_CONTROL, 0),
                    allocations: free_each(v.allocations, addrs.take(j as int)),
                    ..v
                }),
            decreases texture_addresses@.len() - j,
        {
            assert(addrs.take(j + 1).drop_last() =~= addrs.take(j as int));
            let _ = self.free_memory(texture_addresses[j]);
            j += 1;
        }
        assert(addrs.take(j as int) =~= addrs);
        self.textures.clear();
        let _ = self.set_power_state(commands::POWER_STANDBY);
        unmap_mmio(self.mmio_base, self.mmio_size)?;
        self.initialized = false;
        Ok(())
    }

    /// Initialize the AMD GPU device: map the MMIO window, reset, bring up
    /// the memory controller, switch to 1920x1080 at 60 Hz, start the 2D
    /// engine (and the 3D one where supported), set normal power. The
    /// first failing step's error is returned, with the register writes
    /// made before it.
    pub fn initialize(&mut self) -> (r: Result<(), AmdGpuError>)
        ensures
            old(self)@.initialized ==> r == Ok::<(), AmdGpuError>(()) && final(self)@ == old(self)@,
            !old(self)@.initialized ==> {
                let v = old(self)@;
                let m_reset = v.mmio.insert(registers::MMIO_CRTC_CONTROL, 1);
                let m_mem = m_reset.insert(registers::MMIO_MEM_CONFIG, mem_config_of(v.memory_type)).insert(
                    registers::MMIO_MEM_CONTROL,
                    1,
                );
                let pitch = (1920 * (v.framebuffer_bpp / 8)) as u32;
                let m_mode = m_mem.insert(registers::MMIO_CRTC_SIZE, (1080u32 << 16u32) | 1920u32).insert(
                    registers::MMIO_CRTC_PITCH,
                    pitch,
                ).insert(registers::MMIO_DISPLAY_CONTROL, 7);
                let m_2d = m_mode.insert(registers::MMIO_2D_CONTROL, 1);
                let m_3d = if v.supports_3d { m_2d.insert(registers::MMIO_3D_CONTROL, 1) } else { m_2d };
                let m_power = m_3d.insert(registers::MMIO_POWER_STATE, commands::POWER_NORMAL).insert(
                    registers::MMIO_POWER_CONTROL,
                    1,
                );
                if v.mmio_base == 0 || v.mmio_size == 0 {
                    r == Err::<(), AmdGpuError>(AmdGpuError::InitializationFailed) && final(self)@ == v
                } else if reg_value(v.mmio, registers::MMIO_CRTC_STATUS) & 1 == 0 {
                    r == Err::<(), AmdGpuError>(AmdGpuError::InitializationFailed) && final(self)@ == (
                    AmdDeviceView { mmio: m_reset, ..v })
                } else if reg_value(v.mmio, registers::MMIO_MEM_STATUS) & 1 == 0 {
                    r == Err::<(), AmdGpuError>(AmdGpuError::InitializationFailed) && final(self)@ == (
                    AmdDeviceView { mmio: m_mem, ..v })
                } else {
                    r == Ok::<(), AmdGpuError>(()) && final(self)@ == (AmdDeviceView {
                        mmio: m_power,
                        framebuffer_width: 1920,
                        framebuffer_height: 1080,
                        framebuffer_pitch: pitch,
                        current_power_state: commands::POWER_NORMAL,
                        initialized: true,
                        ..v
                    })
                }
            },
    {
        if self.initialized {
            return Ok(());
        }
        if map_mmio(self.mmio_base, self.mmio_size).is_err() {
            return Err(AmdGpuError::InitializationFailed);
        }
        self.reset()?;
        self.init_memory_controller()?;
        assert(1920u32 * (self.framebuffer_bpp / 8) <= u32::MAX);
        self.set_display_mode(1920, 1080, 60)?;
        self.init_2d_engine()?;
        if self.supports_3d {
            self.init_3d_engine()?;
        }
        self.set_power_state(commands::POWER_NORMAL)?;
        self.initialized = true;
        Ok(())
    }
}

} // verus!
