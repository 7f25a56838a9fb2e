//! The interface a standalone GPU driver implements, with its own error
//! and information types.

use vstd::prelude::*;

verus! {

/// Possible errors that can occur during GPU operations.
#[derive(Debug, Clone, Copy, PartialEq, Eq, Structural)]
pub enum GpuError {
    /// The GPU device was not found or couldn't be initialized
    DeviceNotFound,
    /// The requested operation is not supported by this GPU
    NotSupported,
    /// The GPU command failed to execute
    CommandFailed,
    /// Invalid parameter was passed to a GPU function
    InvalidParameter,
    /// The GPU is out of memory
    OutOfMemory,
    /// The operation timed out
    Timeout,
    /// Any other error
    Unknown,
    InitializationFailed,
    DriverNotFound,
    MemoryAllocationFailed,
    InvalidHandle,
    KernelLaunchFailed,
    UnsupportedOperation,
    NoDevice,
    DeviceNotReady,
    DeviceLost,
    InvalidValue,
    UnknownError,
    NotInitialized,
    NotImplemented,
    InvalidParameters,
    OperationFailed,
    UnsupportedDevice,
}

/// The message that describes each error.
pub open spec fn error_message(e: GpuError) -> Seq<char> {
    match e {
        GpuError::DeviceNotFound => "GPU device not found"@,
        GpuError::NotSupported => "Operation not supported"@,
        GpuError::CommandFailed => "GPU command failed"@,
        GpuError::InvalidParameter => "Invalid parameter"@,
        GpuError::OutOfMemory => "GPU out of memory"@,
        GpuError::Timeout => "Operation timed out"@,
        GpuError::Unknown => "Unknown GPU error"@,
        GpuError::InitializationFailed => "GPU initialization failed"@,
        GpuError::DriverNotFound => "GPU driver not found"@,
        GpuError::MemoryAllocationFailed => "GPU memory allocation failed"@,
        GpuError::InvalidHandle => "Invalid GPU handle"@,
        GpuError::KernelLaunchFailed => "GPU kernel launch failed"@,
        GpuError::UnsupportedOperation => "Unsupported GPU operation"@,
        GpuError::NoDevice => "No GPU device found"@,
        GpuError::DeviceNotReady => "GPU device not ready"@,
        GpuError::DeviceLost => "GPU device lost"@,
        GpuError::InvalidValue => "Invalid value"@,
        GpuError::UnknownError => "Unknown error"@,
        GpuError::NotInitialized => "GPU not initialized"@,
        GpuError::NotImplemented => "GPU operation not implemented"@,
        GpuError::InvalidParameters => "Invalid parameters"@,
        GpuError::OperationFailed => "GPU operation failed"@,
        GpuError::UnsupportedDevice => "Unsupported GPU device"@,
    }
}

impl GpuError {
    /// The text that describes the error.
    pub fn message(&self) -> (m: &'static str)
        ensures
            m@ == error_message(*self),
    {
        match self {
            GpuError::DeviceNotFound => "GPU device not found",
            GpuError::NotSupported => "Operation not supported",
            GpuError::CommandFailed => "GPU command failed",
            GpuError::InvalidParameter => "Invalid parameter",
            GpuError::OutOfMemory => "GPU out of memory",
            GpuError::Timeout => "Operation timed out",
            GpuError::Unknown => "Unknown GPU error",
            GpuError::InitializationFailed => "GPU initialization failed",
            GpuError::DriverNotFound => "GPU driver not found",
            GpuError::MemoryAllocationFailed => "GPU memory allocation failed",
            GpuError::InvalidHandle => "Invalid GPU handle",
            GpuError::KernelLaunchFailed => "GPU kernel launch failed",
            GpuError::UnsupportedOperation => "Unsupported GPU operation",
            GpuError::NoDevice => "No GPU device found",
            GpuError::DeviceNotReady => "GPU device not ready",
            GpuError::DeviceLost => "GPU device lost",
            GpuError::InvalidValue => "Invalid value",
            GpuError::UnknownError => "Unknown error",
            GpuError::NotInitialized => "GPU not initialized",
            GpuError::NotImplemented => "GPU operation not implemented",
            GpuError::InvalidParameters => "Invalid parameters",
            GpuError::OperationFailed => "GPU operation failed",
            GpuError::UnsupportedDevice => "Unsupported GPU device",
        }
    }
}

/// The kind of a GPU device.
pub enum GpuDevice {
    /// Represents a generic GPU device
    Generic,
    /// Represents a specific GPU device (e.g., NVIDIA, AMD)
    Specific,
}

impl GpuDevice {
    /// Get the device type
    pub fn device_type(&self) -> (t: &'static str)
        ensures
            t@ == (match self {
                GpuDevice::Generic => "Generic GPU"@,
                GpuDevice::Specific => "Specific GPU"@,
            }),
    {
        match self {
            GpuDevice::Generic => "Generic GPU",
            GpuDevice::Specific => "Specific GPU",
        }
    }
}

/// Work handed to a GPU.
pub enum GpuOperation {
    /// Render a frame
    Render(Vec<u8>),
    /// Run a compute kernel
    Compute(Vec<u32>),
    /// Any other operation
    Other,
}

impl GpuOperation {
    /// The text that describes the operation.
    pub fn description(&self) -> (d: &'static str)
        ensures
            d@ == (match self {
                GpuOperation::Render(_) => "Render operation"@,
                GpuOperation::Compute(_) => "Compute operation"@,
                GpuOperation::Other => "Other operation"@,
            }),
    {
        match self {
            GpuOperation::Render(_) => "Render operation",
            GpuOperation::Compute(_) => "Compute operation",
            GpuOperation::Other => "Other operation",
        }
    }
}

/// Basic information about a GPU device
#[derive(Debug, Clone)]
pub struct GpuInfo {
    /// Name or model of the GPU
    pub name: &'static str,
    /// Vendor name or ID
    pub vendor: &'static str,
    /// Available VRAM in bytes
    pub vram: usize,
}

/// A framebuffer or a portion of video memory.
#[derive(Debug)]
pub struct Framebuffer {
    /// Address of the framebuffer memory
    pub address: usize,
    /// Width in pixels
    pub width: u32,
    /// Height in pixels
    pub height: u32,
    /// Bytes per pixel
    pub bpp: u8,
    /// Pitch (bytes per row)
    pub pitch: u32,
}

/// Interface that all GPU drivers must implement
pub trait GpuDriver {
    /// Initialize the GPU
    fn init(&mut self) -> Result<(), GpuError>;

    /// Get information about the GPU
    fn get_info(&self) -> Result<GpuInfo, GpuError>;

    /// Get the primary framebuffer for display
    fn get_framebuffer(&mut self) -> Result<&mut Framebuffer, GpuError>;

    /// Set a specific video mode
    fn set_mode(&mut self, width: u32, height: u32, bpp: u8) -> Result<(), GpuError>;

    /// Clear the screen with a specific color (RGB format)
    fn clear_screen(&mut self, r: u8, g: u8, b: u8) -> Result<(), GpuError>;

    /// Flush any pending changes to the display
    fn flush(&mut self) -> Result<(), GpuError>;

    /// Shut down the GPU driver
    fn shutdown(&mut self) -> Result<(), GpuError>;
}

/// GPU capability flags
#[derive(Debug, Clone, Copy, PartialEq, Eq)]
pub struct GpuCapabilities {
    /// Supports 2D hardware acceleration
    pub hw_accel_2d: bool,
    /// Supports 3D hardware acceleration
    pub hw_accel_3d: bool,
    /// Maximum supported resolution width
    pub max_width: u32,
    /// Maximum supported resolution height
    pub max_height: u32,
    /// Supported color depths
    pub supported_bpp: &'static [u8],
}

} // verus!
