use os_gaming::kernel::drivers::gpu::specific::amd::common::MmioWindow;
use os_gaming::kernel::drivers::gpu::specific::intel::common as intel;
use os_gaming::kernel::drivers::gpu::specific::intel::common::{linear_to_tiled, read_reg32, wait_for_reg32, write_reg32};
use os_gaming::kernel::drivers::gpu::common::{GpuDevice, GpuError, GpuOperation};
use os_gaming::kernel::drivers::gpu::specific::nvidia::common::{
    allocate_memory, free_memory, initialize_device, map_mmio, unmap_mmio, NvidiaGpuDevice,
};

#[test]
fn gpu_error_messages() {
    assert_eq!(GpuError::DeviceNotFound.message(), "GPU device not found");
    assert_eq!(GpuError::Timeout.message(), "Operation timed out");
    assert_eq!(GpuError::UnsupportedDevice.message(), "Unsupported GPU device");
}

#[test]
fn device_and_operation_texts() {
    assert_eq!(GpuDevice::Generic.device_type(), "Generic GPU");
    assert_eq!(GpuDevice::Specific.device_type(), "Specific GPU");
    assert_eq!(GpuOperation::Render(vec![1]).description(), "Render operation");
    assert_eq!(GpuOperation::Compute(vec![]).description(), "Compute operation");
    assert_eq!(GpuOperation::Other.description(), "Other operation");
}

#[test]
fn nvidia_helpers() {
    let d = NvidiaGpuDevice { name: "RTX".to_string(), memory_size: 1024, core_clock: 1500, memory_clock: 7000 };
    assert!(initialize_device(&d).is_ok());
    assert_eq!(allocate_memory(4096), Ok(0));
    free_memory(0);
    assert_eq!(map_mmio(0xF000_0000, 4096), Ok(0));
    assert!(unmap_mmio(0xF000_0000, 4096).is_ok());
}

#[test]
fn intel_register_helpers() {
    let mut w = MmioWindow::new();
    assert_eq!(read_reg32(&w, 0x80000), 0);
    write_reg32(&mut w, 0x80000, 0xDEAD_BEEF);
    assert_eq!(read_reg32(&w, 0x80000), 0xDEAD_BEEF);
    assert_eq!(read_reg32(&w, 0x80004), 0);
    assert!(wait_for_reg32(&w, 0x80014, 1, 1, 1000).is_ok());
    assert_eq!(linear_to_tiled(0x1234, 64, 64, 32), 0x1234);
    assert!(intel::map_mmio(0xF000_0000, 4096).is_ok());
    assert!(intel::unmap_mmio(0xF000_0000, 4096).is_ok());
}
