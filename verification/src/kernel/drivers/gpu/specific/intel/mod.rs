//! Intel GPU drivers: the helpers shared by the Intel generations.

pub mod common;
