//! What the bootloader hands over and what the kernel asks of it.

pub mod info;
