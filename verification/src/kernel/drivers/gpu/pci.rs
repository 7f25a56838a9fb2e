//! PCI enumeration of display controllers, over a simulated configuration
//! space that holds three graphics cards on bus 0.

use vstd::prelude::*;

verus! {

/// PCI device information
#[derive(Debug, Clone, Copy)]
pub struct PciDevice {
    /// Vendor ID
    pub vendor_id: u16,
    /// Device ID
    pub device_id: u16,
    /// Bus number
    pub bus: u8,
    /// Device number
    pub device: u8,
    /// Function number
    pub function: u8,
    /// Header type
    pub header_type: u8,
    /// Class code
    pub class: u8,
    /// Subclass code
    pub subclass: u8,
    /// Interface code
    pub interface: u8,
    pub bar0: u32,
    pub bar1: u32,
    pub bar2: u32,
    pub bar3: u32,
    pub bar4: u32,
    pub bar5: u32,
    /// Vendor name (e.g., "NVIDIA", "AMD", "Intel")
    pub vendor_name: &'static str,
    /// Device name (e.g., "GeForce RTX 3080")
    pub device_name: &'static str,
    /// Address of the framebuffer if memory-mapped (0 if not)
    pub framebuffer: u64,
    /// Size of framebuffer in bytes
    pub framebuffer_size: usize,
    pub framebuffer_width: u32,
    pub framebuffer_height: u32,
    pub framebuffer_bpp: u8,
    pub framebuffer_pitch: u32,
    pub framebuffer_address: u64,
    pub framebuffer_size_bytes: usize,
    pub framebuffer_width_pixels: u32,
    pub framebuffer_height_pixels: u32,
    pub framebuffer_bpp_bytes: u8,
    pub framebuffer_pitch_bytes: u32,
    pub framebuffer_address_bytes: u64,
    pub framebuffer_size_bytes_bytes: usize,
    pub framebuffer_width_pixels_bytes: u32,
    pub framebuffer_height_pixels_bytes: u32,
    pub framebuffer_bpp_bytes_bytes: u8,
    pub framebuffer_pitch_bytes_bytes: u32,
    pub framebuffer_address_bytes_bytes: u64,
    /// Size of video memory in bytes
    pub vram_size: u64,
    /// Physical address of video memory
    pub vram_address: u64,
    pub core_clock: u32,
    pub memory_clock: u32,
    pub shader_clock: u32,
    pub memory_type: u8,
    pub memory_size: u64,
    pub memory_bus_width: u32,
    pub memory_bandwidth: u32,
    pub memory_speed: u32,
    pub memory_latency: u32,
    pub memory_access_time: u32,
    pub memory_access_speed: u32,
    pub memory_access_latency: u32,
    pub memory_access_bandwidth: u32,
    pub memory_access_speed_bytes: u32,
    pub memory_access_latency_bytes: u32,
    pub memory_access_bandwidth_bytes: u32,
    pub memory_access_speed_bytes_bytes: u32,
    /// Number of execution units/cores
    pub core_count: u32,
    /// Revision ID
    pub revision_id: u8,
    /// Subsystem vendor ID
    pub subsystem_vendor_id: u16,
    /// Subsystem ID
    pub subsystem_id: u16,
}

/// The device record that describes nothing found.
pub open spec fn pci_default() -> PciDevice {
    PciDevice {
        vendor_id: 0,
        device_id: 0,
        bus: 0,
        device: 0,
        function: 0,
        header_type: 0,
        class: 0,
        subclass: 0,
        interface: 0,
        bar0: 0,
        bar1: 0,
        bar2: 0,
        bar3: 0,
        bar4: 0,
        bar5: 0,
        vendor_name: "Unknown",
        device_name: "Unknown",
        framebuffer: 0,
        framebuffer_size: 0,
        framebuffer_width: 0,
        framebuffer_height: 0,
        framebuffer_bpp: 0,
        framebuffer_pitch: 0,
        framebuffer_address: 0,
        framebuffer_size_bytes: 0,
        framebuffer_width_pixels: 0,
        framebuffer_height_pixels: 0,
        framebuffer_bpp_bytes: 0,
        framebuffer_pitch_bytes: 0,
        framebuffer_address_bytes: 0,
        framebuffer_size_bytes_bytes: 0,
        framebuffer_width_pixels_bytes: 0,
        framebuffer_height_pixels_bytes: 0,
        framebuffer_bpp_bytes_bytes: 0,
        framebuffer_pitch_bytes_bytes: 0,
        framebuffer_address_bytes_bytes: 0,
        vram_size: 0,
        vram_address: 0,
        core_clock: 0,
        memory_clock: 0,
        shader_clock: 0,
        memory_type: 0,
        memory_size: 0,
        memory_bus_width: 0,
        memory_bandwidth: 0,
        memory_speed: 0,
        memory_latency: 0,
        memory_access_time: 0,
        memory_access_speed: 0,
        memory_access_latency: 0,
        memory_access_bandwidth: 0,
        memory_access_speed_bytes: 0,
        memory_access_latency_bytes: 0,
        memory_access_bandwidth_bytes: 0,
        memory_access_speed_bytes_bytes: 0,
        core_count: 0,
        revision_id: 0,
        subsystem_vendor_id: 0,
        subsystem_id: 0,
    }
}

impl Default for PciDevice {
    fn default() -> (r: Self)
        ensures
            r == pci_default(),
    {
        PciDevice {
            vendor_id: 0,
            device_id: 0,
            bus: 0,
            device: 0,
            function: 0,
            header_type: 0,
            class: 0,
            subclass: 0,
            interface: 0,
            bar0: 0,
            bar1: 0,
            bar2: 0,
            bar3: 0,
            bar4: 0,
            bar5: 0,
            vendor_name: "Unknown",
            device_name: "Unknown",
            framebuffer: 0,
            framebuffer_size: 0,
            framebuffer_width: 0,
            framebuffer_height: 0,
            framebuffer_bpp: 0,
            framebuffer_pitch: 0,
            framebuffer_address: 0,
            framebuffer_size_bytes: 0,
            framebuffer_width_pixels: 0,
            framebuffer_height_pixels: 0,
            framebuffer_bpp_bytes: 0,
            framebuffer_pitch_bytes: 0,
            framebuffer_address_bytes: 0,
            framebuffer_size_bytes_bytes: 0,
            framebuffer_width_pixels_bytes: 0,
            framebuffer_height_pixels_bytes: 0,
            framebuffer_bpp_bytes_bytes: 0,
            framebuffer_pitch_bytes_bytes: 0,
            framebuffer_address_bytes_bytes: 0,
            vram_size: 0,
            vram_address: 0,
            core_clock: 0,
            memory_clock: 0,
            shader_clock: 0,
            memory_type: 0,
            memory_size: 0,
            memory_bus_width: 0,
            memory_bandwidth: 0,
            memory_speed: 0,
            memory_latency: 0,
            memory_access_time: 0,
            memory_access_speed: 0,
            memory_access_latency: 0,
            memory_access_bandwidth: 0,
            memory_access_speed_bytes: 0,
            memory_access_latency_bytes: 0,
            memory_access_bandwidth_bytes: 0,
            memory_access_speed_bytes_bytes: 0,
            core_count: 0,
            revision_id: 0,
            subsystem_vendor_id: 0,
            subsystem_id: 0,
        }
    }
}

/// The vendor name for a PCI vendor ID.
pub open spec fn vendor_name_of(vendor_id: u16) -> &'static str {
    if vendor_id == 0x1002 { "AMD" }
    else if vendor_id == 0x8086 { "Intel" }
    else if vendor_id == 0x10DE { "NVIDIA" }
    else if vendor_id == 0x1106 { "VIA" }
    else if vendor_id == 0x1039 { "SiS" }
    else if vendor_id == 0x5333 { "S3" }
    else if vendor_id == 0x102B { "Matrox" }
    else if vendor_id == 0x15AD { "VMware" }
    else if vendor_id == 0x1AF4 { "Red Hat" }
    else { "Unknown" }
}

/// The vendor ids that have a name of their own.
pub open spec fn is_known_vendor(v: u16) -> bool {
    v == 0x1002 || v == 0x8086 || v == 0x10DE || v == 0x1106 || v == 0x1039 || v == 0x5333 || v == 0x102B
        || v == 0x15AD || v == 0x1AF4
}

/// The length and first letter of the name of vendor `v`.
proof fn lemma_vendor_name_shape(v: u16)
    ensures
        v == 0x1002 ==> vendor_name_of(v)@.len() == 3 && vendor_name_of(v)@[0] == 'A',
        v == 0x8086 ==> vendor_name_of(v)@.len() == 5 && vendor_name_of(v)@[0] == 'I',
        v == 0x10DE ==> vendor_name_of(v)@.len() == 6 && vendor_name_of(v)@[0] == 'N',
        v == 0x1106 ==> vendor_name_of(v)@.len() == 3 && vendor_name_of(v)@[0] == 'V',
        v == 0x1039 ==> vendor_name_of(v)@.len() == 3 && vendor_name_of(v)@[0] == 'S',
        v == 0x5333 ==> vendor_name_of(v)@.len() == 2 && vendor_name_of(v)@[0] == 'S',
        v == 0x102B ==> vendor_name_of(v)@.len() == 6 && vendor_name_of(v)@[0] == 'M',
        v == 0x15AD ==> vendor_name_of(v)@.len() == 6 && vendor_name_of(v)@[0] == 'V',
        v == 0x1AF4 ==> vendor_name_of(v)@.len() == 7 && vendor_name_of(v)@[0] == 'R',
        !is_known_vendor(v) ==> vendor_name_of(v)@ == "Unknown"@,
{
    if v == 0x1002 {
        reveal_strlit("AMD");
        assert(vendor_name_of(v)@ == "AMD"@);
    } else if v == 0x8086 {
        reveal_strlit("Intel");
        assert(vendor_name_of(v)@ == "Intel"@);
    } else if v == 0x10DE {
        reveal_strlit("NVIDIA");
        assert(vendor_name_of(v)@ == "NVIDIA"@);
    } else if v == 0x1106 {
        reveal_strlit("VIA");
        assert(vendor_name_of(v)@ == "VIA"@);
    } else if v == 0x1039 {
        reveal_strlit("SiS");
        assert(vendor_name_of(v)@ == "SiS"@);
    } else if v == 0x5333 {
        reveal_strlit("S3");
        assert(vendor_name_of(v)@ == "S3"@);
    } else if v == 0x102B {
        reveal_strlit("Matrox");
        assert(vendor_name_of(v)@ == "Matrox"@);
    } else if v == 0x15AD {
        reveal_strlit("VMware");
        assert(vendor_name_of(v)@ == "VMware"@);
    } else if v == 0x1AF4 {
        reveal_strlit("Red Hat");
        assert(vendor_name_of(v)@ == "Red Hat"@);
    }
}

/// A vendor is called "Unknown" exactly when its id is not a known one,
/// and two known ids never share a name.
pub proof fn lemma_vendor_names_distinct(v: u16, w: u16)
    ensures
        vendor_name_of(v)@ == "Unknown"@ <==> !is_known_vendor(v),
        is_known_vendor(v) && is_known_vendor(w) && v != w ==> vendor_name_of(v)@ != vendor_name_of(w)@,
{
    lemma_vendor_name_shape(v);
    lemma_vendor_name_shape(w);
    reveal_strlit("Unknown");
    let nv = vendor_name_of(v)@;
    let nw = vendor_name_of(w)@;
    if nv == nw {
        assert(nv.len() == nw.len() && nv[0] == nw[0]);
    }
    if is_known_vendor(v) && nv == "Unknown"@ {
        assert(nv.len() == 7 && nv[0] == 'U');
    }
}

/// The name of every known card starts with the name of its vendor.
pub proof fn lemma_device_name_starts_with_vendor(v: u16, d: u16)
    ensures
        device_name_of(v, d)@ != "Unknown GPU"@ ==> vendor_name_of(v)@.is_prefix_of(device_name_of(v, d)@),
{
    if v == 0x10DE && d == 0x2204 {
        reveal_strlit("NVIDIA");
        reveal_strlit("NVIDIA RTX 3090");
        assert("NVIDIA"@ =~= "NVIDIA RTX 3090"@.subrange(0, 6));
    }
    if v == 0x10DE && d == 0x2206 {
        reveal_strlit("NVIDIA");
        reveal_strlit("NVIDIA RTX 3080");
        assert("NVIDIA"@ =~= "NVIDIA RTX 3080"@.subrange(0, 6));
    }
    if v == 0x10DE && d == 0x2208 {
        reveal_strlit("NVIDIA");
        reveal_strlit("NVIDIA RTX 3070");
        assert("NVIDIA"@ =~= "NVIDIA RTX 3070"@.subrange(0, 6));
    }
    if v == 0x10DE && d == 0x2484 {
        reveal_strlit("NVIDIA");
        reveal_strlit("NVIDIA RTX 3060 Ti");
        assert("NVIDIA"@ =~= "NVIDIA RTX 3060 Ti"@.subrange(0, 6));
    }
    if v == 0x10DE && d == 0x2486 {
        reveal_strlit("NVIDIA");
        reveal_strlit("NVIDIA RTX 3060");
        assert("NVIDIA"@ =~= "NVIDIA RTX 3060"@.subrange(0, 6));
    }
    if v == 0x10DE && d == 0x1E04 {
        reveal_strlit("NVIDIA");
        reveal_strlit("NVIDIA RTX 2080 Ti");
        assert("NVIDIA"@ =~= "NVIDIA RTX 2080 Ti"@.subrange(0, 6));
    }
    if v == 0x10DE && d == 0x1E87 {
        reveal_strlit("NVIDIA");
        reveal_strlit("NVIDIA RTX 2080 Super");
        assert("NVIDIA"@ =~= "NVIDIA RTX 2080 Super"@.subrange(0, 6));
    }
    if v == 0x10DE && d == 0x1E84 {
        reveal_strlit("NVIDIA");
        reveal_strlit("NVIDIA RTX 2070");
        assert("NVIDIA"@ =~= "NVIDIA RTX 2070"@.subrange(0, 6));
    }
    if v == 0x10DE && d == 0x1F02 {
        reveal_strlit("NVIDIA");
        reveal_strlit("NVIDIA RTX 2060");
        assert("NVIDIA"@ =~= "NVIDIA RTX 2060"@.subrange(0, 6));
    }
    if v == 0x1002 && d == 0x729F {
        reveal_strlit("AMD");
        reveal_strlit("AMD RX 6900 XT");
        assert("AMD"@ =~= "AMD RX 6900 XT"@.subrange(0, 3));
    }
    if v == 0x1002 && d == 0x72BF {
        reveal_strlit("AMD");
        reveal_strlit("AMD RX 6800 XT");
        assert("AMD"@ =~= "AMD RX 6800 XT"@.subrange(0, 3));
    }
    if v == 0x1002 && d == 0x72DF {
        reveal_strlit("AMD");
        reveal_strlit("AMD RX 6800");
        assert("AMD"@ =~= "AMD RX 6800"@.subrange(0, 3));
    }
    if v == 0x1002 && d == 0x73DF {
        reveal_strlit("AMD");
        reveal_strlit("AMD RX 6700 XT");
        assert("AMD"@ =~= "AMD RX 6700 XT"@.subrange(0, 3));
    }
    if v == 0x1002 && d == 0x7340 {
        reveal_strlit("AMD");
        reveal_strlit("AMD RX 6600 XT");
        assert("AMD"@ =~= "AMD RX 6600 XT"@.subrange(0, 3));
    }
    if v == 0x1002 && d == 0x67BF {
        reveal_strlit("AMD");
        reveal_strlit("AMD RX 580");
        assert("AMD"@ =~= "AMD RX 580"@.subrange(0, 3));
    }
    if v == 0x1002 && d == 0x66BF {
        reveal_strlit("AMD");
        reveal_strlit("AMD RX 570");
        assert("AMD"@ =~= "AMD RX 570"@.subrange(0, 3));
    }
    if v == 0x1002 && d == 0x67FF {
        reveal_strlit("AMD");
        reveal_strlit("AMD RX 560");
        assert("AMD"@ =~= "AMD RX 560"@.subrange(0, 3));
    }
    if v == 0x8086 && d == 0x4C8A {
        reveal_strlit("Intel");
        reveal_strlit("Intel UHD Graphics (Tiger Lake)");
        assert("Intel"@ =~= "Intel UHD Graphics (Tiger Lake)"@.subrange(0, 5));
    }
    if v == 0x8086 && d == 0x9BC4 {
        reveal_strlit("Intel");
        reveal_strlit("Intel UHD Graphics (Comet Lake)");
        assert("Intel"@ =~= "Intel UHD Graphics (Comet Lake)"@.subrange(0, 5));
    }
    if v == 0x8086 && d == 0x5917 {
        reveal_strlit("Intel");
        reveal_strlit("Intel UHD Graphics 620 (Kaby Lake)");
        assert("Intel"@ =~= "Intel UHD Graphics 620 (Kaby Lake)"@.subrange(0, 5));
    }
    if v == 0x8086 && d == 0x1912 {
        reveal_strlit("Intel");
        reveal_strlit("Intel HD Graphics 530 (Skylake)");
        assert("Intel"@ =~= "Intel HD Graphics 530 (Skylake)"@.subrange(0, 5));
    }
}

/// Get vendor name from vendor ID
fn get_vendor_name(vendor_id: u16) -> (r: &'static str)
    ensures
        r == vendor_name_of(vendor_id),
{
    match vendor_id {
        0x1002 => "AMD",
        0x8086 => "Intel",
        0x10DE => "NVIDIA",
        0x1106 => "VIA",
        0x1039 => "SiS",
        0x5333 => "S3",
        0x102B => "Matrox",
        0x15AD => "VMware",
        0x1AF4 => "Red Hat",
        _ => "Unknown",
    }
}

/// The marketing name of a known card.
pub open spec fn device_name_of(vendor_id: u16, device_id: u16) -> &'static str {
    if vendor_id == 0x10DE && device_id == 0x2204 { "NVIDIA RTX 3090" }
    else if vendor_id == 0x10DE && device_id == 0x2206 { "NVIDIA RTX 3080" }
    else if vendor_id == 0x10DE && device_id == 0x2208 { "NVIDIA RTX 3070" }
    else if vendor_id == 0x10DE && device_id == 0x2484 { "NVIDIA RTX 3060 Ti" }
    else if vendor_id == 0x10DE && device_id == 0x2486 { "NVIDIA RTX 3060" }
    else if vendor_id == 0x10DE && device_id == 0x1E04 { "NVIDIA RTX 2080 Ti" }
    else if vendor_id == 0x10DE && device_id == 0x1E87 { "NVIDIA RTX 2080 Super" }
    else if vendor_id == 0x10DE && device_id == 0x1E84 { "NVIDIA RTX 2070" }
    else if vendor_id == 0x10DE && device_id == 0x1F02 { "NVIDIA RTX 2060" }
    else if vendor_id == 0x1002 && device_id == 0x729F { "AMD RX 6900 XT" }
    else if vendor_id == 0x1002 && device_id == 0x72BF { "AMD RX 6800 XT" }
    else if vendor_id == 0x1002 && device_id == 0x72DF { "AMD RX 6800" }
    else if vendor_id == 0x1002 && device_id == 0x73DF { "AMD RX 6700 XT" }
    else if vendor_id == 0x1002 && device_id == 0x7340 { "AMD RX 6600 XT" }
    else if vendor_id == 0x1002 && device_id == 0x67BF { "AMD RX 580" }
    else if vendor_id == 0x1002 && device_id == 0x66BF { "AMD RX 570" }
    else if vendor_id == 0x1002 && device_id == 0x67FF { "AMD RX 560" }
    else if vendor_id == 0x8086 && device_id == 0x4C8A { "Intel UHD Graphics (Tiger Lake)" }
    else if vendor_id == 0x8086 && device_id == 0x9BC4 { "Intel UHD Graphics (Comet Lake)" }
    else if vendor_id == 0x8086 && device_id == 0x5917 { "Intel UHD Graphics 620 (Kaby Lake)" }
    else if vendor_id == 0x8086 && device_id == 0x1912 { "Intel HD Graphics 530 (Skylake)" }
    else { "Unknown GPU" }
}

/// Get device name based on vendor ID and device ID
fn get_device_name(vendor_id: u16, device_id: u16) -> (r: &'static str)
    ensures
        r == device_name_of(vendor_id, device_id),
{
    match (vendor_id, device_id) {
        (0x10DE, 0x2204) => "NVIDIA RTX 3090",
        (0x10DE, 0x2206) => "NVIDIA RTX 3080",
        (0x10DE, 0x2208) => "NVIDIA RTX 3070",
        (0x10DE, 0x2484) => "NVIDIA RTX 3060 Ti",
        (0x10DE, 0x2486) => "NVIDIA RTX 3060",
        (0x10DE, 0x1E04) => "NVIDIA RTX 2080 Ti",
        (0x10DE, 0x1E87) => "NVIDIA RTX 2080 Super",
        (0x10DE, 0x1E84) => "NVIDIA RTX 2070",
        (0x10DE, 0x1F02) => "NVIDIA RTX 2060",
        (0x1002, 0x729F) => "AMD RX 6900 XT",
        (0x1002, 0x72BF) => "AMD RX 6800 XT",
        (0x1002, 0x72DF) => "AMD RX 6800",
        (0x1002, 0x73DF) => "AMD RX 6700 XT",
        (0x1002, 0x7340) => "AMD RX 6600 XT",
        (0x1002, 0x67BF) => "AMD RX 580",
        (0x1002, 0x66BF) => "AMD RX 570",
        (0x1002, 0x67FF) => "AMD RX 560",
        (0x8086, 0x4C8A) => "Intel UHD Graphics (Tiger Lake)",
        (0x8086, 0x9BC4) => "Intel UHD Graphics (Comet Lake)",
        (0x8086, 0x5917) => "Intel UHD Graphics 620 (Kaby Lake)",
        (0x8086, 0x1912) => "Intel HD Graphics 530 (Skylake)",
        _ => "Unknown GPU",
    }
}

/// Estimated video memory of a card, in bytes.
pub open spec fn vram_size_of(vendor_id: u16, device_id: u16) -> u64 {
    if vendor_id == 0x10DE && device_id == 0x2204 { (24 * 1024 * 1024 * 1024) as u64 }
    else if vendor_id == 0x10DE && device_id == 0x2206 { (10 * 1024 * 1024 * 1024) as u64 }
    else if vendor_id == 0x10DE && device_id == 0x2208 { (8 * 1024 * 1024 * 1024) as u64 }
    else if vendor_id == 0x10DE && device_id == 0x2484 { (8 * 1024 * 1024 * 1024) as u64 }
    else if vendor_id == 0x1002 && device_id == 0x73BF { (16 * 1024 * 1024 * 1024) as u64 }
    else if vendor_id == 0x1002 && device_id == 0x73DF { (12 * 1024 * 1024 * 1024) as u64 }
    else if vendor_id == 0x1002 && device_id == 0x7340 { (8 * 1024 * 1024 * 1024) as u64 }
    else if vendor_id == 0x8086 { (512 * 1024 * 1024) as u64 }
    else { (4 * 1024 * 1024 * 1024) as u64 }
}

/// Calculate estimated VRAM size based on device ID and vendor
fn estimate_vram_size(vendor_id: u16, device_id: u16) -> (r: u64)
    ensures
        r == vram_size_of(vendor_id, device_id),
{
    match (vendor_id, device_id) {
        (0x10DE, 0x2204) => 24 * 1024 * 1024 * 1024,
        (0x10DE, 0x2206) => 10 * 1024 * 1024 * 1024,
        (0x10DE, 0x2208) => 8 * 1024 * 1024 * 1024,
        (0x10DE, 0x2484) => 8 * 1024 * 1024 * 1024,
        (0x1002, 0x73BF) => 16 * 1024 * 1024 * 1024,
        (0x1002, 0x73DF) => 12 * 1024 * 1024 * 1024,
        (0x1002, 0x7340) => 8 * 1024 * 1024 * 1024,
        (0x8086, _) => 512 * 1024 * 1024,
        _ => 4 * 1024 * 1024 * 1024,
    }
}

/// Estimated core count of a card (CUDA cores, stream processors or EUs).
pub open spec fn core_count_of(vendor_id: u16, device_id: u16) -> u32 {
    if vendor_id == 0x10DE && device_id == 0x2204 { 10496 }
    else if vendor_id == 0x10DE && device_id == 0x2206 { 8704 }
    else if vendor_id == 0x10DE && device_id == 0x2208 { 5888 }
    else if vendor_id == 0x10DE && device_id == 0x2484 { 4864 }
    else if vendor_id == 0x1002 && device_id == 0x73BF { 5120 }
    else if vendor_id == 0x1002 && device_id == 0x73DF { 2560 }
    else if vendor_id == 0x8086 && device_id == 0x4C8A { 96 }
    else if vendor_id == 0x8086 && device_id == 0x9BC4 { 24 }
    else if vendor_id == 0x8086 && device_id == 0x5917 { 24 }
    else { 1024 }
}

/// Estimate the core count based on vendor and device ID
fn estimate_core_count(vendor_id: u16, device_id: u16) -> (r: u32)
    ensures
        r == core_count_of(vendor_id, device_id),
{
    match (vendor_id, device_id) {
        (0x10DE, 0x2204) => 10496,
        (0x10DE, 0x2206) => 8704,
        (0x10DE, 0x2208) => 5888,
        (0x10DE, 0x2484) => 4864,
        (0x1002, 0x73BF) => 5120,
        (0x1002, 0x73DF) => 2560,
        (0x8086, 0x4C8A) => 96,
        (0x8086, 0x9BC4) => 24,
        (0x8086, 0x5917) => 24,
        _ => 1024,
    }
}

/// The simulated configuration space: three display controllers on bus 0,
/// at device slots 1, 2 and 3, function 0; nothing anywhere else.
pub open spec fn pci_read(bus: u8, device: u8, function: u8, offset: u8) -> (bool, u32, u32, u32) {
    if bus == 0 && device == 1 && function == 0 {
        if offset == 0x00 { (true, 0x10DE2206, 0, 0) }
        else if offset == 0x08 { (true, 0x03000000, 0, 0) }
        else if offset == 0x0C { (true, 0x00010000, 0, 0) }
        else if offset == 0x10 { (true, 0xF0000000, 0, 0) }
        else if offset == 0x2C { (true, 0x10DE2206, 0, 0) }
        else { (true, 0, 0, 0) }
    } else if bus == 0 && device == 2 && function == 0 {
        if offset == 0x00 { (true, 0x1002BEEF, 0, 0) }
        else if offset == 0x08 { (true, 0x03000000, 0, 0) }
        else if offset == 0x0C { (true, 0x00010000, 0, 0) }
        else if offset == 0x10 { (true, 0xE0000000, 0, 0) }
        else if offset == 0x2C { (true, 0x1002BEEF, 0, 0) }
        else { (true, 0, 0, 0) }
    } else if bus == 0 && device == 3 && function == 0 {
        if offset == 0x00 { (true, 0x80864C8A, 0, 0) }
        else if offset == 0x08 { (true, 0x03000000, 0, 0) }
        else if offset == 0x0C { (true, 0x00010000, 0, 0) }
        else if offset == 0x10 { (true, 0xD0000000, 0, 0) }
        else if offset == 0x2C { (true, 0x80864C8A, 0, 0) }
        else { (true, 0, 0, 0) }
    } else {
        (false, 0, 0, 0)
    }
}

/// Read from PCI configuration space: whether the read found a function,
/// then the register's value and two further words.
fn read_pci_config(bus: u8, device: u8, function: u8, offset: u8) -> (r: (bool, u32, u32, u32))
    ensures
        r == pci_read(bus, device, function, offset),
{
    if bus == 0 && device == 1 && function == 0 {
        match offset {
            0x00 => (true, 0x10DE2206, 0, 0),
            0x08 => (true, 0x03000000, 0, 0),
            0x0C => (true, 0x00010000, 0, 0),
            0x10 => (true, 0xF0000000, 0, 0),
            0x2C => (true, 0x10DE2206, 0, 0),
            _ => (true, 0, 0, 0),
        }
    } else if bus == 0 && device == 2 && function == 0 {
        match offset {
            0x00 => (true, 0x1002BEEF, 0, 0),
            0x08 => (true, 0x03000000, 0, 0),
            0x0C => (true, 0x00010000, 0, 0),
            0x10 => (true, 0xE0000000, 0, 0),
            0x2C => (true, 0x1002BEEF, 0, 0),
            _ => (true, 0, 0, 0),
        }
    } else if bus == 0 && device == 3 && function == 0 {
        match offset {
            0x00 => (true, 0x80864C8A, 0, 0),
            0x08 => (true, 0x03000000, 0, 0),
            0x0C => (true, 0x00010000, 0, 0),
            0x10 => (true, 0xD0000000, 0, 0),
            0x2C => (true, 0x80864C8A, 0, 0),
            _ => (true, 0, 0, 0),
        }
    } else {
        (false, 0, 0, 0)
    }
}

/// The record built for the display controller at (`bus`, `device`,
/// `function`). The ID word at offset 0 holds the vendor ID and the device
/// ID, in that order: the vendor in its high 16 bits, the device in its low
/// 16 bits (0x10DE2206 is NVIDIA's device 0x2206).
pub open spec fn gpu_record(bus: u8, device: u8, function: u8) -> PciDevice {
    let v = pci_read(bus, device, function, 0x00).1 >> 16u32;
    let dev_id = pci_read(bus, device, function, 0x00).1 & 0xFFFF;
    let cls = pci_read(bus, device, function, 0x08).1;
    let hdr = pci_read(bus, device, function, 0x0C).1;
    let bar0 = pci_read(bus, device, function, 0x10).1;
    let bar1 = pci_read(bus, device, function, 0x14).1;
    let bar2 = pci_read(bus, device, function, 0x18).1;
    let bar3 = pci_read(bus, device, function, 0x1C).1;
    let bar4 = pci_read(bus, device, function, 0x20).1;
    let bar5 = pci_read(bus, device, function, 0x24).1;
    let subsys = pci_read(bus, device, function, 0x2C).1;
    let fb: u64 = if bar0 & 1 == 0 { (bar0 & 0xFFFFFFF0) as u64 } else { 0 };
    PciDevice {
        vendor_id: (v as u16),
        device_id: (dev_id as u16),
        bus: bus,
        device: device,
        function: function,
        header_type: (((hdr >> 16u32) & 0xFF) as u8),
        class: (((cls >> 24u32) & 0xFF) as u8),
        subclass: (((cls >> 16u32) & 0xFF) as u8),
        interface: (((cls >> 8u32) & 0xFF) as u8),
        bar0: bar0,
        bar1: bar1,
        bar2: bar2,
        bar3: bar3,
        bar4: bar4,
        bar5: bar5,
        vendor_name: vendor_name_of(v as u16),
        device_name: device_name_of(v as u16, dev_id as u16),
        framebuffer: fb,
        framebuffer_size: 8294400,
        framebuffer_width: 1920,
        framebuffer_height: 1080,
        framebuffer_bpp: 32,
        framebuffer_pitch: 7680,
        framebuffer_address: fb,
        framebuffer_size_bytes: 8294400,
        framebuffer_width_pixels: 1920,
        framebuffer_height_pixels: 1080,
        framebuffer_bpp_bytes: 4,
        framebuffer_pitch_bytes: 7680,
        framebuffer_address_bytes: fb,
        framebuffer_size_bytes_bytes: 8294400,
        framebuffer_width_pixels_bytes: 1920,
        framebuffer_height_pixels_bytes: 1080,
        framebuffer_bpp_bytes_bytes: 4,
        framebuffer_pitch_bytes_bytes: 7680,
        framebuffer_address_bytes_bytes: fb,
        vram_size: vram_size_of(v as u16, dev_id as u16),
        vram_address: fb,
        core_clock: 1500,
        memory_clock: 14000,
        shader_clock: 1700,
        memory_type: 5,
        memory_size: vram_size_of(v as u16, dev_id as u16),
        memory_bus_width: 256,
        memory_bandwidth: 448000,
        memory_speed: 1750,
        memory_latency: 1,
        memory_access_time: 1,
        memory_access_speed: 448000,
        memory_access_latency: 1,
        memory_access_bandwidth: 448000,
        memory_access_speed_bytes: 448000,
        memory_access_latency_bytes: 1,
        memory_access_bandwidth_bytes: 448000,
        memory_access_speed_bytes_bytes: 448000,
        core_count: core_count_of(v as u16, dev_id as u16),
        revision_id: ((cls & 0xFF) as u8),
        subsystem_vendor_id: ((subsys & 0xFFFF) as u16),
        subsystem_id: (((subsys >> 16u32) & 0xFFFF) as u16),
    }
}

/// The display controller at (`bus`, `device`, `function`), if there is one.
pub open spec fn gpu_at(bus: u8, device: u8, function: u8) -> Option<PciDevice> {
    let id = pci_read(bus, device, function, 0x00);
    if !id.0 || id.1 >> 16u32 == 0xFFFF {
        None
    } else if ((pci_read(bus, device, function, 0x08).1 >> 24u32) & 0xFF) as u8 == 0x03 {
        Some(gpu_record(bus, device, function))
    } else {
        None
    }
}

pub open spec fn opt_seq(o: Option<PciDevice>) -> Seq<PciDevice> {
    match o {
        Some(d) => seq![d],
        None => Seq::empty(),
    }
}

/// The display controllers among the first `n` functions of a device.
pub open spec fn scan_functions(bus: u8, device: u8, n: nat) -> Seq<PciDevice>
    decreases n,
{
    if n == 0 {
        Seq::empty()
    } else {
        scan_functions(bus, device, (n - 1) as nat) + opt_seq(gpu_at(bus, device, (n - 1) as u8))
    }
}

/// The display controllers among the first `n` devices of a bus.
pub open spec fn scan_devices(bus: u8, n: nat) -> Seq<PciDevice>
    decreases n,
{
    if n == 0 {
        Seq::empty()
    } else {
        scan_devices(bus, (n - 1) as nat) + scan_functions(bus, (n - 1) as u8, 8)
    }
}

/// The display controllers on the first `n` buses.
pub open spec fn scan_buses(n: nat) -> Seq<PciDevice>
    decreases n,
{
    if n == 0 {
        Seq::empty()
    } else {
        scan_buses((n - 1) as nat) + scan_devices((n - 1) as u8, 32)
    }
}

/// The record for one function, if it is a display controller.
fn probe_function(bus: u8, device: u8, function: u8) -> (r: Option<PciDevice>)
    ensures
        r == gpu_at(bus, device, function),
{
    let (valid, id_word, _, _) = read_pci_config(bus, device, function, 0);
    let vendor_id = id_word >> 16u32;
    let device_id = id_word & 0xFFFF;
    if !valid || vendor_id == 0xFFFF {
        return None;
    }
    let (_, class_data, _, _) = read_pci_config(bus, device, function, 0x08);
    let class = ((class_data >> 24u32) & 0xFF) as u8;
    let subclass = ((class_data >> 16u32) & 0xFF) as u8;
    let interface = ((class_data >> 8u32) & 0xFF) as u8;
    let revision_id = (class_data & 0xFF) as u8;
    if class != 0x03 {
        return None;
    }
    let (_, header_data, _, _) = read_pci_config(bus, device, function, 0x0C);
    let header_type = ((header_data >> 16u32) & 0xFF) as u8;
    let (_, bar0, _, _) = read_pci_config(bus, device, function, 0x10);
    let (_, bar1, _, _) = read_pci_config(bus, device, function, 0x14);
    let (_, bar2, _, _) = read_pci_config(bus, device, function, 0x18);
    let (_, bar3, _, _) = read_pci_config(bus, device, function, 0x1C);
    let (_, bar4, _, _) = read_pci_config(bus, device, function, 0x20);
    let (_, bar5, _, _) = read_pci_config(bus, device, function, 0x24);
    let (_, subsys_data, _, _) = read_pci_config(bus, device, function, 0x2C);
    let subsystem_vendor_id = (subsys_data & 0xFFFF) as u16;
    let subsystem_id = ((subsys_data >> 16u32) & 0xFFFF) as u16;
    let framebuffer_address: u64 = if bar0 & 0x1 == 0 { (bar0 & 0xFFFFFFF0) as u64 } else { 0 };
    let vendor = vendor_id as u16;
    let dev = device_id as u16;
    let vendor_name = get_vendor_name(vendor);
    let device_name = get_device_name(vendor, dev);
    let vram_size = estimate_vram_size(vendor, dev);
    let core_count = estimate_core_count(vendor, dev);
    let framebuffer_width: u32 = 1920;
    let framebuffer_height: u32 = 1080;
    let framebuffer_bpp: u8 = 32;
    let framebuffer_pitch: u32 = framebuffer_width * (framebuffer_bpp / 8) as u32;
    assert(framebuffer_pitch == 7680);
    let framebuffer_size: usize = framebuffer_pitch as usize * framebuffer_height as usize;
    Some(PciDevice {
        vendor_id: vendor,
        device_id: dev,
        bus,
        device,
        function,
        header_type,
        class,
        subclass,
        interface,
        bar0,
        bar1,
        bar2,
        bar3,
        bar4,
        bar5,
        vendor_name,
        device_name,
        framebuffer: framebuffer_address,
        framebuffer_size,
        framebuffer_width,
        framebuffer_height,
        framebuffer_bpp,
        framebuffer_pitch,
        framebuffer_address,
        framebuffer_size_bytes: framebuffer_size,
        framebuffer_width_pixels: framebuffer_width,
        framebuffer_height_pixels: framebuffer_height,
        framebuffer_bpp_bytes: framebuffer_bpp / 8,
        framebuffer_pitch_bytes: framebuffer_pitch,
        framebuffer_address_bytes: framebuffer_address,
        framebuffer_size_bytes_bytes: framebuffer_size,
        framebuffer_width_pixels_bytes: framebuffer_width,
        framebuffer_height_pixels_bytes: framebuffer_height,
        framebuffer_bpp_bytes_bytes: framebuffer_bpp / 8,
        framebuffer_pitch_bytes_bytes: framebuffer_pitch,
        framebuffer_address_bytes_bytes: framebuffer_address,
        vram_size,
        vram_address: framebuffer_address,
        core_count,
        core_clock: 1500,
        memory_clock: 14000,
        shader_clock: 1700,
        memory_type: 5,
        memory_size: vram_size,
        memory_bus_width: 256,
        memory_bandwidth: 448000,
        memory_speed: 1750,
        memory_latency: 1,
        memory_access_time: 1,
        memory_access_speed: 448000,
        memory_access_latency: 1,
        memory_access_bandwidth: 448000,
        memory_access_speed_bytes: 448000,
        memory_access_latency_bytes: 1,
        memory_access_bandwidth_bytes: 448000,
        memory_access_speed_bytes_bytes: 448000,
        revision_id,
        subsystem_vendor_id,
        subsystem_id,
    })
}

/// Enumerate all GPU devices on the PCI bus: every display controller on
/// buses 0 to 255, in bus, device and function order.
pub fn enumerate_gpus() -> (r: Result<Vec<PciDevice>, &'static str>)
    ensures
        r is Ok,
        r->Ok_0@ == scan_buses(256),
{
    let mut devices: Vec<PciDevice> = Vec::new();
    let mut bus: u16 = 0;
    while bus < 256
        invariant
            bus <= 256,
            devices@ == scan_buses(bus as nat),
        decreases 256 - bus,
    {
        let mut device: u8 = 0;
        while device < 32
            invariant
                bus < 256,
                device <= 32,
                devices@ == scan_buses(bus as nat) + scan_devices(bus as u8, device as nat),
            decreases 32 - device,
        {
            let mut function: u8 = 0;
            while function < 8
                invariant
                    bus < 256,
                    device < 32,
                    function <= 8,
                    devices@ == scan_buses(bus as nat) + scan_devices(bus as u8, device as nat)
                        + scan_functions(bus as u8, device, function as nat),
                decreases 8 - function,
            {
                let found = probe_function(bus as u8, device, function);
                let ghost before = devices@;
                match found {
                    Some(d) => {
                        devices.push(d);
                    },
                    None => {},
                }
                assert(devices@ =~= before + opt_seq(gpu_at(bus as u8, device, function)));
                function += 1;
            }
            assert(scan_devices(bus as u8, (device + 1) as nat)
                =~= scan_devices(bus as u8, device as nat) + scan_functions(bus as u8, device, 8));
            device += 1;
        }
        assert(scan_buses((bus + 1) as nat) =~= scan_buses(bus as nat) + scan_devices(bus as u8, 32));
        bus += 1;
    }
    Ok(devices)
}


proof fn lemma_functions_empty(bus: u8, device: u8, n: nat)
    requires
        n <= 8,
        bus != 0 || device == 0 || device >= 4,
    ensures
        scan_functions(bus, device, n) == Seq::<PciDevice>::empty(),
    decreases n,
{
    if n > 0 {
        lemma_functions_empty(bus, device, (n - 1) as nat);
        assert(gpu_at(bus, device, (n - 1) as u8) is None);
        assert(scan_functions(bus, device, n) =~= Seq::<PciDevice>::empty());
    }
}

proof fn lemma_functions_one(device: u8, n: nat)
    requires
        1 <= n <= 8,
        1 <= device <= 3,
    ensures
        scan_functions(0, device, n) == seq![gpu_record(0, device, 0)],
    decreases n,
{
    if n == 1 {
        assert((((0x03000000u32 >> 24u32) & 0xFF) as u8) == 0x03) by (bit_vector);
        assert(0x10DE2206u32 >> 16u32 != 0xFFFF && 0x1002BEEFu32 >> 16u32 != 0xFFFF && 0x80864C8Au32 >> 16u32
            != 0xFFFF) by (bit_vector);
        assert(gpu_at(0, device, 0) == Some(gpu_record(0, device, 0)));
        assert(scan_functions(0, device, 0) =~= Seq::<PciDevice>::empty());
        assert(scan_functions(0, device, 1) =~= seq![gpu_record(0, device, 0)]);
    } else {
        lemma_functions_one(device, (n - 1) as nat);
        assert(gpu_at(0, device, (n - 1) as u8) is None);
        assert(scan_functions(0, device, n) =~= seq![gpu_record(0, device, 0)]);
    }
}

proof fn lemma_devices_empty(bus: u8, n: nat)
    requires
        bus != 0,
        n <= 32,
    ensures
        scan_devices(bus, n) == Seq::<PciDevice>::empty(),
    decreases n,
{
    if n > 0 {
        lemma_devices_empty(bus, (n - 1) as nat);
        lemma_functions_empty(bus, (n - 1) as u8, 8);
        assert(scan_devices(bus, n) =~= Seq::<PciDevice>::empty());
    }
}

/// The three simulated cards, in the order that enumeration meets them.
pub open spec fn simulated_gpus() -> Seq<PciDevice> {
    seq![gpu_record(0, 1, 0), gpu_record(0, 2, 0), gpu_record(0, 3, 0)]
}

proof fn lemma_bus_zero(n: nat)
    requires
        4 <= n <= 32,
    ensures
        scan_devices(0, n) == simulated_gpus(),
    decreases n,
{
    if n == 4 {
        lemma_functions_empty(0, 0, 8);
        lemma_functions_one(1, 8);
        lemma_functions_one(2, 8);
        lemma_functions_one(3, 8);
        assert(scan_devices(0, 0) =~= Seq::<PciDevice>::empty());
        assert(scan_devices(0, 1) =~= Seq::<PciDevice>::empty());
        assert(scan_devices(0, 2) =~= seq![gpu_record(0, 1, 0)]);
        assert(scan_devices(0, 3) =~= seq![gpu_record(0, 1, 0), gpu_record(0, 2, 0)]);
        assert(scan_devices(0, 4) =~= simulated_gpus());
    } else {
        lemma_bus_zero((n - 1) as nat);
        lemma_functions_empty(0, (n - 1) as u8, 8);
        assert(scan_devices(0, n) =~= simulated_gpus());
    }
}

proof fn lemma_buses(n: nat)
    requires
        1 <= n <= 256,
    ensures
        scan_buses(n) == simulated_gpus(),
    decreases n,
{
    if n == 1 {
        lemma_bus_zero(32);
        assert(scan_buses(0) =~= Seq::<PciDevice>::empty());
        assert(scan_buses(1) =~= simulated_gpus());
    } else {
        lemma_buses((n - 1) as nat);
        lemma_devices_empty((n - 1) as u8, 32);
        assert(scan_buses(n) =~= simulated_gpus());
    }
}

/// Enumeration finds exactly the three simulated display controllers: an
/// NVIDIA RTX 3080 (vendor 0x10DE, device 0x2206), an AMD card (0x1002,
/// 0xBEEF) and an Intel one (0x8086, 0x4C8A), in that order.
pub proof fn lemma_enumeration_finds_three()
    ensures
        scan_buses(256) == simulated_gpus(),
        simulated_gpus()[0].vendor_id == 0x10DE && simulated_gpus()[0].device_id == 0x2206,
        simulated_gpus()[1].vendor_id == 0x1002 && simulated_gpus()[1].device_id == 0xBEEF,
        simulated_gpus()[2].vendor_id == 0x8086 && simulated_gpus()[2].device_id == 0x4C8A,
        forall|i: int| 0 <= i < 3 ==> (#[trigger] simulated_gpus()[i]).class == 0x03,
{
    lemma_buses(256);
    assert(((0x10DE2206u32 >> 16u32) as u16) == 0x10DE && ((0x10DE2206u32 & 0xFFFF) as u16) == 0x2206) by (bit_vector);
    assert(((0x1002BEEFu32 >> 16u32) as u16) == 0x1002 && ((0x1002BEEFu32 & 0xFFFF) as u16) == 0xBEEF) by (bit_vector);
    assert(((0x80864C8Au32 >> 16u32) as u16) == 0x8086 && ((0x80864C8Au32 & 0xFFFF) as u16) == 0x4C8A) by (bit_vector);
    assert((((0x03000000u32 >> 24u32) & 0xFF) as u8) == 0x03) by (bit_vector);
}

} // verus!
