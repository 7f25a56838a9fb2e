[package]
name = "os_gaming"
version = "0.1.0"
edition = "2021"
publish = false

[dependencies]
raw-cpuid = "=11.6.0"
spin = "=0.9.9"
lazy_static = "=1.5.1"
bincode = "=2.0.1"
serde = { version = "=1.0.229", features = ["derive"] }
log = "=0.4.35"
x86_64 = { version = "=0.15.5", default-features = false, features = ["instructions"] }
hashbrown = "0.15"
