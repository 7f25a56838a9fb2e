//! The kernel: boot sequence and device drivers.

pub mod boot;
pub mod cpu;
pub mod drivers;
