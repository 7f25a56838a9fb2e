use os_gaming::kernel::drivers::gpu::pci::PciDevice;
use os_gaming::kernel::drivers::gpu::specific::amd::rdna;
use os_gaming::kernel::drivers::gpu::specific::nvidia::{self, cuda, turing, NvidiaDriver};
use os_gaming::kernel::drivers::gpu::specific::GpuDevice;
use os_gaming::kernel::drivers::gpu::GpuError;

fn nvidia_card(device_id: u16) -> PciDevice {
    let mut d = PciDevice::default();
    d.vendor_id = 0x10DE;
    d.device_id = device_id;
    d
}

#[test]
fn cuda_identifies_cards() {
    let d = cuda::CudaDevice::new(0x1B80);
    assert_eq!(d.name, "NVIDIA GeForce GTX 1080");
    assert_eq!(d.get_compute_capability(), (6, 1));
    assert_eq!(d.cuda_cores, 20 * 128);
    assert!(!d.has_tensor_cores());
    assert_eq!(d.memory_size, 8usize * 1024 * 1024 * 1024);
    let big = cuda::CudaDevice::new(0x2204);
    assert_eq!(big.memory_size, 24usize * 1024 * 1024 * 1024);
    assert!(big.has_ray_tracing_cores());
}

#[test]
fn cuda_refuses_work_before_initialisation() {
    let mut d = cuda::CudaDevice::new(0x1B81);
    assert_eq!(d.malloc(16), Err(GpuError::NotInitialized));
    assert_eq!(d.clear(0), Err(GpuError::NotInitialized));
    d.initialize().unwrap();
    assert_eq!(d.malloc(16), Ok(0xDEADBEEF));
    assert_eq!(d.free(0xDEADBEEF), Ok(()));
}

#[test]
fn cuda_textures_are_kept_by_id() {
    let mut d = cuda::create_driver(&nvidia_card(0x1B83)).unwrap();
    let data: Vec<u8> = (0..20u8).collect();
    assert_eq!(d.create_texture(0, 1, 0, &data), Err(GpuError::InvalidParameter));
    assert_eq!(d.create_texture(1, 1, 5, &data), Err(GpuError::UnsupportedFormat));
    assert_eq!(d.create_texture(3, 2, 0, &data), Err(GpuError::InvalidParameter));
    let id = d.create_texture(2, 2, 1, &data).unwrap();
    assert_eq!(id, 1);
    assert_eq!(d.get_texture_data(id).unwrap(), &data[0..12]);
    assert_eq!(d.draw_texture(id, 0, 0, 2, 2), Ok(()));
    assert_eq!(d.destroy_texture(id), Ok(()));
    assert_eq!(d.destroy_texture(id), Err(GpuError::InvalidTexture));
    assert_eq!(d.get_texture_data(id), Err(GpuError::InvalidTexture));
}

#[test]
fn cuda_reports_its_features() {
    let d = cuda::create_driver(&nvidia_card(0x2206)).unwrap();
    let info = d.get_info().unwrap();
    assert_eq!(info.vendor, "NVIDIA");
    assert_eq!(info.device, "NVIDIA GeForce RTX 3080");
    assert_eq!(info.features, 0x7E | 0x800 | 0x1000);
    assert_eq!(info.available_modes.len(), 5);
    assert_eq!(info.max_texture_size, 32768);
}

#[test]
fn cuda_needs_an_nvidia_card() {
    let mut other = nvidia_card(0x1B80);
    other.vendor_id = 0x1002;
    assert!(matches!(cuda::create_driver(&other), Err(GpuError::InvalidDevice)));
}

#[test]
fn nvidia_picks_the_driver_by_family() {
    assert!(matches!(nvidia::create_driver(&nvidia_card(0x2204)), Ok(NvidiaDriver::Ampere(_))));
    assert!(matches!(nvidia::create_driver(&nvidia_card(0x1E87)), Ok(NvidiaDriver::Turing(_))));
    assert!(matches!(nvidia::create_driver(&nvidia_card(0x1B80)), Ok(NvidiaDriver::Cuda(_))));
}

#[test]
fn turing_pitch_and_names() {
    let g = turing::create_driver(&nvidia_card(0x1E04)).unwrap();
    assert_eq!(g.get_framebuffer_pitch(), Ok(7680));
    let info = g.get_info().unwrap();
    assert_eq!(info.device, "NVIDIA RTX 2080 Ti");
    assert_eq!(info.features, 0x02 | 0x01 | 0x20 | 0x40 | 0x04 | 0x80 | 0x08 | 0x10);
    let mut cold = turing::TuringGpu::new(0x1F82, 0, 0);
    assert_eq!(cold.configure_hardware(true), Err(GpuError::NotInitialized));
}

#[test]
fn ampere_blend_modes_and_mode_switch() {
    let mut g = match nvidia::create_driver(&nvidia_card(0x2208)).unwrap() {
        NvidiaDriver::Ampere(g) => g,
        _ => panic!("expected the Ampere driver"),
    };
    assert_eq!(g.set_blend_mode(4), Err(GpuError::InvalidParameter));
    assert_eq!(g.set_blend_mode(2), Ok(()));
    assert_eq!(g.blend_mode, 2);
    g.get_framebuffer(1280, 720).unwrap();
    assert_eq!(g.get_framebuffer_pitch(), Ok(1280 * 4));
    assert_eq!(g.create_texture(1, 1, 0, &[0; 4]), Ok(1));
    assert_eq!(g.create_texture(1, 1, 0, &[0; 4]), Ok(2));
}

#[test]
fn rdna_reports_amd() {
    let mut d = PciDevice::default();
    d.vendor_id = 0x1002;
    d.device_id = 0x73BF;
    d.bar0 = 0xE000_000F;
    let g = rdna::create_driver(&d).unwrap();
    assert_eq!(g.framebuffer, 0xE000_0000);
    let info = g.get_info().unwrap();
    assert_eq!(info.vendor, "AMD");
    assert_eq!(info.max_texture_size, 16384);
}
