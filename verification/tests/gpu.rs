use os_gaming::kernel::drivers::gpu::specific::GpuDevice;
use os_gaming::kernel::drivers::gpu::{
    self, detection::detect_gpu, detection::DetectedGpu, pci::enumerate_gpus, vesa, BlendMode, Feature, GpuError,
    GpuSubsystem, TextureFormat,
};
use os_gaming::kernel::drivers::gpu::specific::nvidia::NvidiaDriver;

fn vesa_pixel(d: &vesa::VesaDriver, x: usize, y: usize) -> [u8; 4] {
    let b = d.framebuffer_bytes();
    let i = y * 4096 + x * 4;
    [b[i], b[i + 1], b[i + 2], b[i + 3]]
}

fn ready() -> GpuSubsystem {
    let mut g = GpuSubsystem::new();
    gpu::init(&mut g).unwrap();
    g
}

#[test]
fn operations_before_init_answer_no_device() {
    let mut g = GpuSubsystem::new();
    assert_eq!(gpu::clear(&mut g, 0).unwrap_err(), GpuError::NoDevice);
    assert_eq!(gpu::get_framebuffer_pitch(&g).unwrap_err(), GpuError::NoDevice);
    assert_eq!(gpu::present(&mut g).unwrap_err(), GpuError::NoDevice);
    assert!(gpu::shutdown(&mut g).is_ok());
}

#[test]
fn enumeration_reads_vendor_and_device_ids() {
    let devices = enumerate_gpus().unwrap();
    assert_eq!(devices.len(), 3);
    assert_eq!((devices[0].bus, devices[0].device, devices[0].function), (0, 1, 0));
    assert_eq!(devices[0].vendor_id, 0x10DE);
    assert_eq!(devices[0].device_id, 0x2206);
    assert_eq!(devices[0].vendor_name, "NVIDIA");
    assert_eq!(devices[0].device_name, "NVIDIA RTX 3080");
    assert_eq!(devices[0].class, 0x03);
    assert_eq!(devices[0].framebuffer_address, 0xF0000000);
    assert_eq!((devices[1].vendor_id, devices[1].device_id), (0x1002, 0xBEEF));
    assert_eq!((devices[2].vendor_id, devices[2].device_id), (0x8086, 0x4C8A));
}

#[test]
fn detection_picks_the_ampere_driver() {
    match detect_gpu() {
        Ok(DetectedGpu::Nvidia(NvidiaDriver::Ampere(g))) => {
            assert_eq!(g.device_id, 0x2206);
            assert_eq!(g.gpu_model, "RTX 3080");
        },
        _ => panic!("expected the Ampere driver"),
    }
    let g = ready();
    let info = gpu::get_info(&g).unwrap();
    assert_eq!(info.vendor, "NVIDIA");
    assert_eq!(info.device, "RTX 3080");
    assert_eq!(info.max_texture_size, 32768);
    assert_eq!(info.current_mode.width, 1920);
    assert_eq!(info.available_modes.len(), 4);
    assert_eq!(gpu::get_max_texture_size(&g).unwrap(), 32768);
}

#[test]
fn the_card_hands_out_no_framebuffer() {
    let mut g = ready();
    assert_eq!(gpu::get_framebuffer(&mut g, 640, 480).unwrap(), 0);
    assert_eq!(gpu::get_framebuffer_pitch(&g).unwrap(), 2560);
}

#[test]
fn features_beyond_32_bits_are_never_reported() {
    let g = ready();
    assert_eq!(Feature::TensorCores.bits(), 0x100000000);
    assert!(!gpu::supports_feature(&g, Feature::TensorCores).unwrap());
    assert!(gpu::supports_feature(&g, Feature::Acceleration2D).unwrap());
    assert!(gpu::supports_feature(&g, Feature::Shaders).unwrap());
    assert_eq!(TextureFormat::A8.code(), 4);
    assert_eq!(BlendMode::Multiply.code(), 3);
}

#[test]
fn textures_get_ids_but_no_texels() {
    let mut g = ready();
    assert_eq!(gpu::create_texture(&mut g, 2, 2, 0, &[0; 16]).unwrap(), 1);
    assert_eq!(gpu::create_texture(&mut g, 2, 2, 0, &[0; 16]).unwrap(), 2);
    assert!(gpu::destroy_texture(&mut g, 1).is_ok());
    assert_eq!(gpu::get_texture_data(&g, 1).unwrap_err(), GpuError::InvalidTexture);
    assert!(gpu::draw_texture(&mut g, 1, 0, 0, 2, 2).is_ok());
    assert!(gpu::set_blend_mode(&mut g, 1).is_ok());
    assert_eq!(gpu::set_blend_mode(&mut g, 4).unwrap_err(), GpuError::InvalidParameter);
}

#[test]
fn vesa_clear_fills_every_pixel_low_byte_first() {
    let mut d = vesa::create_driver().unwrap();
    d.clear(0x11223344).unwrap();
    assert_eq!(vesa_pixel(&d, 0, 0), [0x44, 0x33, 0x22, 0x11]);
    assert_eq!(vesa_pixel(&d, 1023, 767), [0x44, 0x33, 0x22, 0x11]);
}

#[test]
fn vesa_fill_rect_is_cut_to_the_screen_and_clip() {
    let mut d = vesa::create_driver().unwrap();
    d.fill_rect(-5, -5, 10, 10, 0xFF).unwrap();
    assert_eq!(vesa_pixel(&d, 4, 4), [0xFF, 0, 0, 0]);
    assert_eq!(vesa_pixel(&d, 5, 5), [0, 0, 0, 0]);
    d.set_clip_rect(100, 100, 10, 10).unwrap();
    d.fill_rect(90, 90, 100, 100, 0x01).unwrap();
    assert_eq!(vesa_pixel(&d, 100, 100), [1, 0, 0, 0]);
    assert_eq!(vesa_pixel(&d, 109, 109), [1, 0, 0, 0]);
    assert_eq!(vesa_pixel(&d, 110, 100), [0, 0, 0, 0]);
    d.clear_clip_rect().unwrap();
    d.fill_rect(1020, 760, 100, 100, 0x02).unwrap();
    assert_eq!(vesa_pixel(&d, 1023, 767), [2, 0, 0, 0]);
}

#[test]
fn vesa_lines_include_both_ends() {
    let mut d = vesa::create_driver().unwrap();
    d.draw_line(10, 10, 13, 12, 0x7).unwrap();
    assert_eq!(vesa_pixel(&d, 10, 10), [7, 0, 0, 0]);
    assert_eq!(vesa_pixel(&d, 13, 12), [7, 0, 0, 0]);
    assert_eq!(vesa_pixel(&d, 11, 11), [7, 0, 0, 0]);
    assert_eq!(vesa_pixel(&d, 10, 12), [0, 0, 0, 0]);
    d.draw_line(50, 60, 50, 60, 0x3).unwrap();
    assert_eq!(vesa_pixel(&d, 50, 60), [3, 0, 0, 0]);
}

#[test]
fn shutdown_drops_the_device() {
    let mut g = ready();
    gpu::shutdown(&mut g).unwrap();
    assert!(g.device().is_none());
    assert_eq!(gpu::get_info(&g).unwrap_err(), GpuError::NoDevice);
}
