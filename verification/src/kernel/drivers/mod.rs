pub mod display;
pub mod displayport;
pub mod filesystem;
pub mod gamepad;
pub mod gpu;
pub mod hdmi;
pub mod inputs;
pub mod keyboard;
pub mod mouse;
pub mod ram_laws;
