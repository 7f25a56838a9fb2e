//! FluxGridOS core: the computing parts of a gaming-oriented kernel (RAM
//! filesystem, display and GPU drivers, input handling, configuration).

mod clock;
pub mod text;
pub mod scan;
pub mod boot;
pub mod bootloader_custom;
pub mod config;
pub mod kernel;
pub mod gui;
