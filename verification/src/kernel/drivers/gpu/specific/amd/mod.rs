//! AMD GPU drivers.

pub mod common;
pub mod rdna;
