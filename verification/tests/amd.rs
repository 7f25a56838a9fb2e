use os_gaming::kernel::drivers::gpu::pci::PciDevice;
use os_gaming::kernel::drivers::gpu::specific::amd::common::{
    commands, get_device_name, initialize_device, map_mmio, registers, AmdGpuArchitecture, AmdGpuDevice, AmdGpuError,
    AmdMemoryType, Rect, TextureFormat,
};

fn rx6900() -> PciDevice {
    let mut p = PciDevice::default();
    p.vendor_id = 0x1002;
    p.device_id = 0x73BF;
    p.device_name = "Radeon RX 6900 XT";
    p.bar0 = 0xF000_00AB;
    p.memory_size = 16 * 1024 * 1024 * 1024;
    p.vram_address = 0x1_0000_0000;
    p.core_clock = 2015;
    p.memory_clock = 2000;
    p
}

fn ready_device() -> AmdGpuDevice {
    let mut d = AmdGpuDevice::new(&rx6900());
    d.mmio.write(registers::MMIO_CRTC_STATUS, 1);
    d.mmio.write(registers::MMIO_MEM_STATUS, 1);
    d.initialize().unwrap();
    d
}

#[test]
fn new_reads_the_model_from_the_device_id() {
    let d = AmdGpuDevice::new(&rx6900());
    assert!(matches!(d.architecture, AmdGpuArchitecture::RDNA2));
    assert!(matches!(d.memory_type, AmdMemoryType::GDDR6));
    assert_eq!(d.compute_units, 80);
    assert_eq!(d.stream_processors, 80 * 64);
    assert_eq!(d.mmio_base, 0xF000_0000);
    assert_eq!(d.mmio_size, 16 * 1024 * 1024);
    assert_eq!(d.device_id, 0x73BF);
    assert_eq!(d.vendor_id, 0x1002);
    assert!(d.supports_video_encode);
    assert_eq!(get_device_name(&d), "Radeon RX 6900 XT");
    assert!(initialize_device(&d).is_ok());
    let mut p = rx6900();
    p.device_id = 0x1234;
    let u = AmdGpuDevice::new(&p);
    assert!(matches!(u.architecture, AmdGpuArchitecture::Unknown));
    assert_eq!(u.compute_units, 16);
    assert!(!u.supports_video_encode);
}

#[test]
fn default_device_is_refused() {
    let d = AmdGpuDevice::default();
    assert_eq!(initialize_device(&d).unwrap_err(), AmdGpuError::UnsupportedDevice);
    assert_eq!(map_mmio(0, 4).unwrap_err(), AmdGpuError::InitializationFailed);
    assert!(map_mmio(4, 4).is_ok());
}

#[test]
fn initialize_waits_for_the_crtc_and_memory_status() {
    let mut d = AmdGpuDevice::new(&rx6900());
    assert_eq!(d.initialize().unwrap_err(), AmdGpuError::InitializationFailed);
    assert_eq!(d.mmio.read(registers::MMIO_CRTC_CONTROL), 1);
    d.mmio.write(registers::MMIO_CRTC_STATUS, 1);
    assert_eq!(d.initialize().unwrap_err(), AmdGpuError::InitializationFailed);
    assert_eq!(d.mmio.read(registers::MMIO_MEM_CONFIG), 3);
    d.mmio.write(registers::MMIO_MEM_STATUS, 1);
    assert!(d.initialize().is_ok());
    assert_eq!((d.framebuffer_width, d.framebuffer_height, d.framebuffer_pitch), (1920, 1080, 7680));
    assert_eq!(d.mmio.read(registers::MMIO_CRTC_SIZE), (1080 << 16) | 1920);
    assert_eq!(d.mmio.read(registers::MMIO_DISPLAY_CONTROL), 7);
    assert_eq!(d.current_power_state, commands::POWER_NORMAL);
}

#[test]
fn textures_allocate_vram_and_free_it() {
    let mut d = ready_device();
    let id = d.create_texture(4, 4, TextureFormat::RGBA8, &[]).unwrap();
    assert_eq!(id, 1);
    let id2 = d.create_texture(2, 2, TextureFormat::BC1, &[]).unwrap();
    assert_eq!(id2, 2);
    assert!(d.destroy_texture(1).is_ok());
    assert_eq!(d.destroy_texture(1).unwrap_err(), AmdGpuError::InvalidParameter);
    let a = d.allocate_memory(64, false).unwrap();
    assert_eq!(a.address, 0x1000);
    assert!(!a.is_vram);
    assert_eq!(d.allocate_memory(usize::MAX, true).unwrap_err(), AmdGpuError::OutOfMemory);
    assert_eq!(d.free_memory(0x1234).unwrap_err(), AmdGpuError::InvalidParameter);
}

#[test]
fn operations_before_initialize_are_refused() {
    let mut d = AmdGpuDevice::new(&rx6900());
    assert_eq!(d.create_texture(1, 1, TextureFormat::A8, &[0]).unwrap_err(), AmdGpuError::NotInitialized);
    assert_eq!(d.clear_screen(0).unwrap_err(), AmdGpuError::NotInitialized);
    assert_eq!(d.free_memory(0).unwrap_err(), AmdGpuError::NotInitialized);
    assert!(d.shutdown().is_ok());
}

#[test]
fn fill_rect_issues_a_fill_command() {
    let mut d = ready_device();
    d.set_framebuffer_address(0x10_0000).unwrap();
    d.fill_rect(Rect { x: 2, y: 3, width: 5, height: 6 }, 0xABCDEF).unwrap();
    assert_eq!(d.mmio.read(registers::MMIO_2D_COLOR), 0xABCDEF);
    assert_eq!(d.mmio.read(registers::MMIO_2D_DST_ADDR), 0x10_0000 + 3 * 7680 + 2 * 4);
    assert_eq!(d.mmio.read(registers::MMIO_2D_SIZE), (6 << 16) | 5);
    assert_eq!(d.mmio.read(registers::MMIO_2D_CONTROL), 1);
    d.mmio.write(registers::MMIO_2D_CONTROL, 0x8000_0000);
    assert_eq!(d.clear_screen(0).unwrap_err(), AmdGpuError::OperationFailed);
}

#[test]
fn shutdown_frees_textures_and_goes_to_standby() {
    let mut d = ready_device();
    d.create_texture(1, 1, TextureFormat::R8, &[0]).unwrap();
    assert!(d.shutdown().is_ok());
    assert_eq!(d.current_power_state, commands::POWER_STANDBY);
    assert_eq!(d.mmio.read(registers::MMIO_DISPLAY_CONTROL), 0);
    assert_eq!(d.free_memory(0x1000).unwrap_err(), AmdGpuError::NotInitialized);
    assert_eq!(d.get_supported_modes().len(), 12);
}
