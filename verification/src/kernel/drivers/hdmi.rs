//! HDMI output: a framebuffer at the chosen resolution, EDID decoding, and
//! the graphics hardware that the host's tools report.

use vstd::prelude::*;
use crate::scan::{
    contains_seq, contains_str, decimal_chars, decimal_seq, find_chars, find_spec, lines_of, lines_seq, parse_u32,
    parse_unsigned, pieces_view, slice_chars, split_chars, split_seq, starts_with_seq, starts_with_str, trim_chars,
    trim_seq, words_of, words_seq,
};
use crate::text::{chars_of, string_from_chars, string_from_str};

verus! {

/// HDMI resolution configuration
#[derive(Debug, Clone, Copy, PartialEq, Eq, Structural)]
pub struct HdmiResolution {
    pub width: u32,
    pub height: u32,
    pub refresh_rate: u32,
}

/// HDMI color format
#[derive(Debug, Clone, Copy, PartialEq, Eq, Structural)]
pub enum HdmiColorFormat {
    RGB,
    YCbCr444,
    YCbCr422,
    YCbCr420,
}

#[derive(Debug, Clone, PartialEq)]
pub enum GpuVendor {
    Nvidia,
    AMD,
    Intel,
    VMware,
    VirtualBox,
    Other(String),
    Unknown,
}

/// A vendor as the contracts see it.
pub enum VendorView {
    Nvidia,
    AMD,
    Intel,
    VMware,
    VirtualBox,
    Other(Seq<char>),
    Unknown,
}

impl View for GpuVendor {
    type V = VendorView;

    open spec fn view(&self) -> VendorView {
        match self {
            GpuVendor::Nvidia => VendorView::Nvidia,
            GpuVendor::AMD => VendorView::AMD,
            GpuVendor::Intel => VendorView::Intel,
            GpuVendor::VMware => VendorView::VMware,
            GpuVendor::VirtualBox => VendorView::VirtualBox,
            GpuVendor::Other(s) => VendorView::Other(s@),
            GpuVendor::Unknown => VendorView::Unknown,
        }
    }
}

#[derive(Debug, Clone)]
pub struct GpuInfo {
    pub vendor: GpuVendor,
    pub model: String,
    pub vram_mb: Option<u32>,
    pub driver_version: Option<String>,
    pub supports_vulkan: bool,
    pub supports_opengl: bool,
    pub max_resolution: Option<HdmiResolution>,
    pub supports_hdr: bool,
    pub supports_variable_refresh: bool,
    pub supports_raytracing: bool,
}

/// A GPU description as the contracts see it.
pub struct GpuInfoView {
    pub vendor: VendorView,
    pub model: Seq<char>,
    pub vram_mb: Option<u32>,
    pub driver_version: Option<Seq<char>>,
    pub supports_vulkan: bool,
    pub supports_opengl: bool,
    pub max_resolution: Option<HdmiResolution>,
    pub supports_hdr: bool,
    pub supports_variable_refresh: bool,
    pub supports_raytracing: bool,
}

impl View for GpuInfo {
    type V = GpuInfoView;

    open spec fn view(&self) -> GpuInfoView {
        GpuInfoView {
            vendor: self.vendor@,
            model: self.model@,
            vram_mb: self.vram_mb,
            driver_version: match self.driver_version {
                Some(d) => Some(d@),
                None => None,
            },
            supports_vulkan: self.supports_vulkan,
            supports_opengl: self.supports_opengl,
            max_resolution: self.max_resolution,
            supports_hdr: self.supports_hdr,
            supports_variable_refresh: self.supports_variable_refresh,
            supports_raytracing: self.supports_raytracing,
        }
    }
}

/// The views of a list of GPU descriptions.
pub open spec fn gpus_view(v: Seq<GpuInfo>) -> Seq<GpuInfoView> {
    v.map_values(|g: GpuInfo| g@)
}

#[derive(Debug, Clone)]
pub struct MonitorCapabilities {
    pub manufacturer: String,
    pub product_code: u16,
    pub serial: u32,
    pub manufacture_date: String,
    pub name: String,
    pub max_resolution: HdmiResolution,
    pub supports_hdr: bool,
    pub supports_freesync: bool,
    pub supports_gsync: bool,
}

#[derive(Debug, Clone, Copy)]
pub struct GamingRequirements {
    pub min_vram_mb: u32,
    pub requires_vulkan: bool,
    pub requires_opengl: bool,
    pub requires_raytracing: bool,
    pub min_width: u32,
    pub min_height: u32,
    pub min_refresh_rate: u32,
}

/// HDMI driver state
pub struct HdmiDriver {
    initialized: bool,
    current_resolution: Option<HdmiResolution>,
    color_format: HdmiColorFormat,
    framebuffer: Option<Vec<u8>>,
    framebuffer_size: usize,
    detected_gpus: Vec<GpuInfo>,
    primary_gpu: Option<usize>,
}

/// The driver as the contracts see it.
pub struct HdmiState {
    pub initialized: bool,
    pub resolution: Option<HdmiResolution>,
    pub color_format: HdmiColorFormat,
    pub framebuffer: Option<Seq<u8>>,
    pub framebuffer_size: usize,
    pub gpus: Seq<GpuInfoView>,
    pub primary: Option<usize>,
}

impl View for HdmiDriver {
    type V = HdmiState;

    closed spec fn view(&self) -> HdmiState {
        HdmiState {
            initialized: self.initialized,
            resolution: self.current_resolution,
            color_format: self.color_format,
            framebuffer: match self.framebuffer {
                Some(fb) => Some(fb@),
                None => None,
            },
            framebuffer_size: self.framebuffer_size,
            gpus: gpus_view(self.detected_gpus@),
            primary: self.primary_gpu,
        }
    }
}

/// A framebuffer of `size` bytes holds exactly that many, in whole pixels,
/// and an initialised driver has one at its resolution.
pub open spec fn framebuffer_ok(s: HdmiState) -> bool {
    &&& match s.framebuffer {
        Some(fb) => fb.len() == s.framebuffer_size,
        None => true,
    }
    &&& s.framebuffer_size % 4 == 0
    &&& match s.resolution {
        Some(r) => s.framebuffer_size == r.width * r.height * 4,
        None => true,
    }
    &&& s.initialized ==> s.resolution is Some && s.framebuffer is Some
}

/// The framebuffer of a screen cleared to (`r`, `g`, `b`), fully opaque.
pub open spec fn cleared(n: nat, r: u8, g: u8, b: u8) -> Seq<u8> {
    Seq::new(n, |i: int| if i % 4 == 0 { r } else if i % 4 == 1 { g } else if i % 4 == 2 { b } else { 255u8 })
}

/// `fb` with the pixel at byte offset `off` set to (`r`, `g`, `b`, `a`).
pub open spec fn with_pixel(fb: Seq<u8>, off: int, r: u8, g: u8, b: u8, a: u8) -> Seq<u8> {
    fb.update(off, r).update(off + 1, g).update(off + 2, b).update(off + 3, a)
}

/// The byte offset of pixel (`x`, `y`) in a framebuffer `width` pixels wide.
pub open spec fn pixel_offset(width: u32, x: u32, y: u32) -> int {
    (y * width + x) * 4
}

/// The pixel offset of an in-bounds pixel fits the 32-bit arithmetic that
/// computes it.
pub open spec fn offset_fits(res: Option<HdmiResolution>, x: u32, y: u32) -> bool {
    match res {
        Some(r) => x < r.width && y < r.height ==> pixel_offset(r.width, x, y) + 3 <= u32::MAX,
        None => true,
    }
}

/// A zero-filled buffer of `n` bytes.
pub fn zeroed(n: usize) -> (v: Vec<u8>)
    ensures
        v@ == Seq::new(n as nat, |i: int| 0u8),
{
    let mut v: Vec<u8> = Vec::new();
    let mut i: usize = 0;
    while i < n
        invariant
            i <= n,
            v@ == Seq::new(i as nat, |k: int| 0u8),
        decreases n - i,
    {
        v.push(0);
        i += 1;
        assert(v@ =~= Seq::new(i as nat, |k: int| 0u8));
    }
    v
}

/// Fills `fb` with the opaque colour (`r`, `g`, `b`), four bytes a pixel.
pub fn fill_rgb(fb: &mut Vec<u8>, r: u8, g: u8, b: u8)
    requires
        old(fb)@.len() % 4 == 0,
    ensures
        final(fb)@ == cleared(old(fb)@.len(), r, g, b),
{
    let n = fb.len();
    let mut i: usize = 0;
    while i < n
        invariant
            n == fb@.len(),
            n % 4 == 0,
            i % 4 == 0,
            i <= n,
            forall|k: int| 0 <= k < i ==> fb@[k] == cleared(n as nat, r, g, b)[k],
        decreases n - i,
    {
        fb[i] = r;
        fb[i + 1] = g;
        fb[i + 2] = b;
        fb[i + 3] = 255;
        i += 4;
    }
    assert(fb@ =~= cleared(n as nat, r, g, b));
}

/// Sets the four bytes of one pixel at byte offset `off`.
pub fn put_pixel(fb: &mut Vec<u8>, off: usize, r: u8, g: u8, b: u8, a: u8)
    requires
        off + 4 <= old(fb)@.len(),
    ensures
        final(fb)@ == with_pixel(old(fb)@, off as int, r, g, b, a),
{
    let _len = fb.len();
    fb[off] = r;
    fb[off + 1] = g;
    fb[off + 2] = b;
    fb[off + 3] = a;
}

/// Whether the GPU `gpu` (if any) meets `req`, as the HDMI driver judges.
pub open spec fn hdmi_meets(gpu: Option<GpuInfoView>, req: GamingRequirements) -> bool {
    match gpu {
        None => false,
        Some(g) => {
            &&& match g.vram_mb {
                Some(v) => v >= req.min_vram_mb,
                None => req.min_vram_mb == 0,
            }
            &&& !(req.requires_vulkan && !g.supports_vulkan)
            &&& !(req.requires_opengl && !g.supports_opengl)
            &&& !(req.requires_raytracing && !g.supports_raytracing)
            &&& match g.max_resolution {
                Some(r) => r.width >= req.min_width && r.height >= req.min_height
                    && r.refresh_rate >= req.min_refresh_rate,
                None => true,
            }
        },
    }
}

/// The primary GPU of a driver state, if it names one that was detected.
pub open spec fn primary_of(s: HdmiState) -> Option<GpuInfoView> {
    match s.primary {
        Some(i) => if i < s.gpus.len() { Some(s.gpus[i as int]) } else { None },
        None => None,
    }
}

// ---------------------------------------------------------------------------
// EDID
// ---------------------------------------------------------------------------

/// Why an EDID block is refused, if it is.
pub open spec fn edid_error(e: Seq<u8>) -> Option<&'static str> {
    if e.len() < 128 {
        Some("EDID data too short")
    } else if e.subrange(0, 8) != seq![0x00u8, 0xFFu8, 0xFFu8, 0xFFu8, 0xFFu8, 0xFFu8, 0xFFu8, 0x00u8] {
        Some("Invalid EDID header")
    } else {
        None
    }
}

/// The three letters of the manufacturer code, five bits each from 'A' - 1.
pub open spec fn edid_manufacturer(e: Seq<u8>) -> Seq<char> {
    let id: u16 = ((e[8] as u16) << 8u16) | (e[9] as u16);
    seq![
        ((((id >> 10u16) & 0x1F) + 64) as u8) as char,
        ((((id >> 5u16) & 0x1F) + 64) as u8) as char,
        (((id & 0x1F) + 64) as u8) as char
    ]
}

/// The monitor name text from byte `start` on, for at most `n` bytes: it
/// stops at a line feed and skips control bytes.
pub open spec fn name_text(e: Seq<u8>, start: int, n: nat) -> Seq<char>
    decreases n,
{
    if n == 0 || e[start] == 0x0A {
        Seq::empty()
    } else {
        (if e[start] >= 0x20 { seq![e[start] as char] } else { Seq::empty() }) + name_text(e, start + 1, (n - 1) as nat)
    }
}

/// Descriptor block `b` (of four) holds the monitor name.
pub open spec fn is_name_block(e: Seq<u8>, b: int) -> bool {
    let off = 54 + b * 18;
    off + 18 <= e.len() && e[off] == 0 && e[off + 1] == 0 && e[off + 2] == 0 && e[off + 3] == 0xFC
}

/// The name in the first name descriptor among blocks `from` to 3.
pub open spec fn edid_name_from(e: Seq<u8>, from: nat) -> Seq<char>
    decreases 4 - from,
{
    if from >= 4 {
        Seq::empty()
    } else if is_name_block(e, from as int) {
        name_text(e, (54 + from * 18 + 5) as int, 13)
    } else {
        edid_name_from(e, from + 1)
    }
}

/// The refresh rate of the preferred timing, 60 Hz where a timing field is zero.
pub open spec fn edid_refresh(e: Seq<u8>) -> u32 {
    let pixel_clock = ((e[54] as u32) << 8u32) | (e[55] as u32);
    let h_active = ((e[56] as u32 & 0xF0) << 4u32) | (e[58] as u32);
    let v_active = ((e[59] as u32 & 0xF0) << 4u32) | (e[61] as u32);
    let h_blanking = ((e[56] as u32 & 0x0F) << 8u32) | (e[57] as u32);
    let v_blanking = ((e[59] as u32 & 0x0F) << 8u32) | (e[60] as u32);
    if pixel_clock > 0 && h_active > 0 && v_active > 0 && h_blanking > 0 && v_blanking > 0 {
        ((pixel_clock * 10000) / ((h_active + h_blanking) * (v_active + v_blanking))) as u32
    } else {
        60
    }
}

/// The resolution that the first detailed timing descriptor gives.
pub open spec fn edid_resolution(e: Seq<u8>) -> HdmiResolution {
    HdmiResolution {
        width: ((e[54] as u32) + ((e[56] as u32 & 0xF0) << 4u32)) as u32,
        height: ((e[57] as u32) + ((e[59] as u32 & 0xF0) << 4u32)) as u32,
        refresh_rate: edid_refresh(e),
    }
}

/// The manufacture date as `year-week`.
pub open spec fn edid_date(e: Seq<u8>) -> Seq<char> {
    decimal_seq((1990 + e[17]) as nat) + seq!['-'] + decimal_seq(e[16] as nat)
}

/// The capabilities decoded from a valid EDID block.
pub open spec fn edid_caps_ok(e: Seq<u8>, c: MonitorCapabilities) -> bool {
    &&& c.manufacturer@ == edid_manufacturer(e)
    &&& c.product_code == ((e[10] as u16) << 8u16) | (e[11] as u16)
    &&& c.serial == ((e[12] as u32) << 24u32) | ((e[13] as u32) << 16u32) | ((e[14] as u32) << 8u32) | (e[15] as u32)
    &&& c.manufacture_date@ == edid_date(e)
    &&& c.name@ == edid_name_from(e, 0)
    &&& c.max_resolution == edid_resolution(e)
    &&& !c.supports_hdr && !c.supports_freesync && !c.supports_gsync
}

/// Reads the monitor name text of the descriptor at `off`.
fn read_name_text(e: &[u8], off: usize) -> (r: Vec<char>)
    requires
        off + 18 <= e@.len(),
    ensures
        r@ == name_text(e@, off + 5, 13),
{
    let e_len = e.len();
    let mut out: Vec<char> = Vec::new();
    let mut i: usize = 0;
    while i < 13
        invariant
            i <= 13,
            e_len == e@.len(),
            off + 18 <= e@.len(),
            out@ + name_text(e@, off + 5 + i, (13 - i) as nat) == name_text(e@, off + 5, 13),
        decreases 13 - i,
    {
        let byte = e[off + 5 + i];
        if byte == 0x0A {
            assert(name_text(e@, off + 5 + i, (13 - i) as nat) == Seq::<char>::empty());
            assert(out@ + Seq::<char>::empty() =~= out@);
            return out;
        }
        let ghost rest = name_text(e@, off + 5 + i + 1, (13 - i - 1) as nat);
        if byte >= 0x20 {
            out.push(byte as char);
        }
        assert(name_text(e@, off + 5 + i, (13 - i) as nat)
            == (if byte >= 0x20 { seq![byte as char] } else { Seq::<char>::empty() }) + rest);
        proof {
            let before = out@;
            if byte >= 0x20 {
                assert(out@ + rest =~= before.drop_last() + (seq![byte as char] + rest));
            } else {
                assert(out@ + rest =~= before + (Seq::<char>::empty() + rest));
            }
        }
        i += 1;
    }
    assert(name_text(e@, off + 5 + 13, 0) == Seq::<char>::empty());
    assert(out@ + Seq::<char>::empty() =~= out@);
    out
}

/// The monitor name of a valid EDID block: the text of the first name
/// descriptor, or nothing.
fn read_edid_name(e: &[u8]) -> (r: Vec<char>)
    requires
        e@.len() >= 128,
    ensures
        r@ == edid_name_from(e@, 0),
{
    let mut block: usize = 0;
    while block < 4
        invariant
            block <= 4,
            e@.len() >= 128,
            edid_name_from(e@, 0) == edid_name_from(e@, block as nat),
        decreases 4 - block,
    {
        let offset = 54 + block * 18;
        if offset + 18 <= e.len() && e[offset] == 0 && e[offset + 1] == 0 && e[offset + 2] == 0 && e[offset + 3] == 0xFC {
            return read_name_text(e, offset);
        }
        block += 1;
    }
    Vec::new()
}

/// Decodes the parts of a valid EDID block.
fn decode_edid(e: &[u8]) -> (c: MonitorCapabilities)
    requires
        edid_error(e@) is None,
    ensures
        edid_caps_ok(e@, c),
{
    let id: u16 = ((e[8] as u16) << 8u16) | (e[9] as u16);
    let mut manufacturer = String::new();
    assert((id >> 10u16) & 0x1F <= 31 && (id >> 5u16) & 0x1F <= 31 && id & 0x1F <= 31) by (bit_vector);
    crate::text::string_push(&mut manufacturer, ((((id >> 10u16) & 0x1F) + 64) as u8) as char);
    crate::text::string_push(&mut manufacturer, ((((id >> 5u16) & 0x1F) + 64) as u8) as char);
    crate::text::string_push(&mut manufacturer, (((id & 0x1F) + 64) as u8) as char);
    assert(manufacturer@ =~= edid_manufacturer(e@));
    let product_code = ((e[10] as u16) << 8u16) | (e[11] as u16);
    let serial = ((e[12] as u32) << 24u32) | ((e[13] as u32) << 16u32) | ((e[14] as u32) << 8u32) | (e[15] as u32);
    let week = e[16];
    let year: u16 = 1990 + e[17] as u16;
    proof {
        let (b54, b55, b56, b57, b58, b59, b60, b61) = (e[54], e[55], e[56], e[57], e[58], e[59], e[60], e[61]);
        assert(((b54 as u32) << 8u32) | (b55 as u32) <= 0xFFFF) by (bit_vector);
        assert(((b56 as u32 & 0xF0) << 4u32) | (b58 as u32) <= 0xFFF) by (bit_vector);
        assert(((b59 as u32 & 0xF0) << 4u32) | (b61 as u32) <= 0xFFF) by (bit_vector);
        assert(((b56 as u32 & 0x0F) << 8u32) | (b57 as u32) <= 0xFFF) by (bit_vector);
        assert(((b59 as u32 & 0x0F) << 8u32) | (b60 as u32) <= 0xFFF) by (bit_vector);
        assert((b56 as u32 & 0xF0) << 4u32 <= 0xF00) by (bit_vector);
        assert((b59 as u32 & 0xF0) << 4u32 <= 0xF00) by (bit_vector);
    }
    let width = (e[54] as u32) + ((e[56] as u32 & 0xF0) << 4u32);
    let height = (e[57] as u32) + ((e[59] as u32 & 0xF0) << 4u32);
    let pixel_clock = ((e[54] as u32) << 8u32) | (e[55] as u32);
    let h_active = ((e[56] as u32 & 0xF0) << 4u32) | (e[58] as u32);
    let v_active = ((e[59] as u32 & 0xF0) << 4u32) | (e[61] as u32);
    let h_blanking = ((e[56] as u32 & 0x0F) << 8u32) | (e[57] as u32);
    let v_blanking = ((e[59] as u32 & 0x0F) << 8u32) | (e[60] as u32);
    let refresh_rate = if pixel_clock > 0 && h_active > 0 && v_active > 0 && h_blanking > 0 && v_blanking > 0 {
        assert((h_active + h_blanking) * (v_active + v_blanking) <= 0x2000 * 0x2000) by (nonlinear_arith)
            requires
                h_active + h_blanking <= 0x2000,
                v_active + v_blanking <= 0x2000,
        ;
        assert((h_active + h_blanking) * (v_active + v_blanking) > 0) by (nonlinear_arith)
            requires
                h_active + h_blanking > 0,
                v_active + v_blanking > 0,
        ;
        let total_pixels = (h_active + h_blanking) * (v_active + v_blanking);
        (pixel_clock * 10000) / total_pixels
    } else {
        60
    };
    let name_chars = read_edid_name(e);
    let mut date = String::new();
    let ychars = decimal_chars(year as u32);
    let wchars = decimal_chars(week as u32);
    let mut i: usize = 0;
    while i < ychars.len()
        invariant
            i <= ychars@.len(),
            date@ == ychars@.take(i as int),
        decreases ychars@.len() - i,
    {
        crate::text::string_push(&mut date, ychars[i]);
        assert(ychars@.take(i + 1) =~= ychars@.take(i as int).push(ychars@[i as int]));
        i += 1;
    }
    crate::text::string_push(&mut date, '-');
    let ghost head = date@;
    let mut j: usize = 0;
    while j < wchars.len()
        invariant
            j <= wchars@.len(),
            date@ == head + wchars@.take(j as int),
        decreases wchars@.len() - j,
    {
        crate::text::string_push(&mut date, wchars[j]);
        assert(wchars@.take(j + 1) =~= wchars@.take(j as int).push(wchars@[j as int]));
        j += 1;
    }
    assert(ychars@.take(ychars@.len() as int) =~= ychars@);
    assert(wchars@.take(wchars@.len() as int) =~= wchars@);
    assert(date@ =~= edid_date(e@));
    MonitorCapabilities {
        manufacturer,
        product_code,
        serial,
        manufacture_date: date,
        name: string_from_chars(&name_chars),
        max_resolution: HdmiResolution { width, height, refresh_rate },
        supports_hdr: false,
        supports_freesync: false,
        supports_gsync: false,
    }
}


impl HdmiDriver {
    /// The driver's invariant.
    pub closed spec fn wf(&self) -> bool {
        framebuffer_ok(self@)
    }

    /// Create a new HDMI driver instance
    pub fn new() -> (d: Self)
        ensures
            d.wf(),
            d@ == (HdmiState {
                initialized: false,
                resolution: None,
                color_format: HdmiColorFormat::RGB,
                framebuffer: None,
                framebuffer_size: 0,
                gpus: Seq::empty(),
                primary: None,
            }),
    {
        let d = HdmiDriver {
            initialized: false,
            current_resolution: None,
            color_format: HdmiColorFormat::RGB,
            framebuffer: None,
            framebuffer_size: 0,
            detected_gpus: Vec::new(),
            primary_gpu: None,
        };
        assert(gpus_view(d.detected_gpus@) =~= Seq::<GpuInfoView>::empty());
        d
    }

    /// Initialize the HDMI driver at 1920x1080, 60 Hz.
    pub fn init(&mut self) -> (r: Result<(), &'static str>)
        requires
            old(self).wf(),
        ensures
            final(self).wf(),
            init_outcome(old(self)@, HdmiResolution { width: 1920, height: 1080, refresh_rate: 60 }, r, final(self)@),
    {
        self.init_with_resolution(HdmiResolution { width: 1920, height: 1080, refresh_rate: 60 })
    }

    /// Initialize the HDMI driver with specific resolution
    pub fn init_with_resolution(&mut self, resolution: HdmiResolution) -> (r: Result<(), &'static str>)
        requires
            old(self).wf(),
            resolution.width * resolution.height * 4 <= usize::MAX,
        ensures
            final(self).wf(),
            init_outcome(old(self)@, resolution, r, final(self)@),
    {
        if self.initialized {
            return Err("HDMI driver already initialized");
        }
        assert(resolution.width * resolution.height <= usize::MAX) by (nonlinear_arith)
            requires
                resolution.width * resolution.height * 4 <= usize::MAX,
        ;
        let fb_size = resolution.width as usize * resolution.height as usize * 4;
        let framebuffer = match self.allocate_framebuffer(fb_size) {
            Ok(fb) => fb,
            Err(e) => {
                return Err(e);
            },
        };
        self.framebuffer = Some(framebuffer);
        self.framebuffer_size = fb_size;
        self.current_resolution = Some(resolution);
        self.initialized = true;
        Ok(())
    }

    /// A zero-filled framebuffer of `size` bytes.
    fn allocate_framebuffer(&self, size: usize) -> (r: Result<Vec<u8>, &'static str>)
        ensures
            r is Ok,
            r->Ok_0@ == Seq::new(size as nat, |i: int| 0u8),
    {
        Ok(zeroed(size))
    }

    /// Clear the screen to a specific color
    pub fn clear_screen(&mut self, r: u8, g: u8, b: u8) -> (res: Result<(), &'static str>)
        requires
            old(self).wf(),
        ensures
            final(self).wf(),
            !old(self)@.initialized ==> res == Err::<(), &'static str>("HDMI driver not initialized")
                && final(self)@ == old(self)@,
            old(self)@.initialized ==> res is Ok && final(self)@ == (HdmiState {
                framebuffer: Some(cleared(old(self)@.framebuffer_size as nat, r, g, b)),
                ..old(self)@
            }),
    {
        if !self.initialized {
            return Err("HDMI driver not initialized");
        }
        let mut fb = match self.framebuffer.take() {
            Some(fb) => fb,
            None => {
                return Err("Framebuffer not allocated");
            },
        };
        fill_rgb(&mut fb, r, g, b);
        self.framebuffer = Some(fb);
        Ok(())
    }

    /// Get current resolution
    pub fn resolution(&self) -> (r: Option<HdmiResolution>)
        ensures
            r == self@.resolution,
    {
        self.current_resolution
    }

    /// Set a pixel at the specified coordinates
    pub fn set_pixel(&mut self, x: u32, y: u32, r: u8, g: u8, b: u8, a: u8) -> (res: Result<(), &'static str>)
        requires
            old(self).wf(),
            offset_fits(old(self)@.resolution, x, y),
        ensures
            final(self).wf(),
            set_pixel_outcome(old(self)@, x, y, r, g, b, a, res, final(self)@, "HDMI driver not initialized"),
    {
        if !self.initialized {
            return Err("HDMI driver not initialized");
        }
        let resolution = match self.current_resolution {
            Some(res) => res,
            None => {
                return Err("Resolution not set");
            },
        };
        if x >= resolution.width || y >= resolution.height {
            return Err("Coordinates out of bounds");
        }
        let mut fb = match self.framebuffer.take() {
            Some(fb) => fb,
            None => {
                return Err("Framebuffer not allocated");
            },
        };
        assert(y * resolution.width + x < resolution.width * resolution.height) by (nonlinear_arith)
            requires
                x < resolution.width,
                y < resolution.height,
        ;
        let offset = ((y * resolution.width + x) * 4) as usize;
        put_pixel(&mut fb, offset, r, g, b, a);
        self.framebuffer = Some(fb);
        Ok(())
    }

    /// Flush changes to the screen
    pub fn flush(&self) -> (r: Result<(), &'static str>)
        ensures
            !self@.initialized ==> r == Err::<(), &'static str>("HDMI driver not initialized"),
            self@.initialized ==> r is Ok,
    {
        if !self.initialized {
            return Err("HDMI driver not initialized");
        }
        Ok(())
    }

    /// Parse EDID data to extract monitor capabilities
    pub fn parse_edid(&self, edid: &[u8]) -> (r: Result<MonitorCapabilities, &'static str>)
        ensures
            match edid_error(edid@) {
                Some(e) => r == Err::<MonitorCapabilities, &'static str>(e),
                None => r is Ok && edid_caps_ok(edid@, r->Ok_0),
            },
    {
        if edid.len() < 128 {
            return Err("EDID data too short");
        }
        let header: [u8; 8] = [0x00, 0xFF, 0xFF, 0xFF, 0xFF, 0xFF, 0xFF, 0x00];
        let mut k: usize = 0;
        while k < 8
            invariant
                k <= 8,
                edid@.len() >= 128,
                header@ == seq![0x00u8, 0xFFu8, 0xFFu8, 0xFFu8, 0xFFu8, 0xFFu8, 0xFFu8, 0x00u8],
                forall|j: int| 0 <= j < k ==> edid@[j] == header@[j],
            decreases 8 - k,
        {
            if edid[k] != header[k] {
                assert(edid@.subrange(0, 8)[k as int] != header@[k as int]);
                return Err("Invalid EDID header");
            }
            k += 1;
        }
        assert(edid@.subrange(0, 8) =~= header@);
        Ok(decode_edid(edid))
    }

    /// Get primary GPU information
    pub fn get_primary_gpu(&self) -> (r: Option<&GpuInfo>)
        ensures
            match primary_of(self@) {
                Some(g) => r is Some && r->Some_0@ == g,
                None => r is None,
            },
    {
        match self.primary_gpu {
            Some(idx) => {
                if idx < self.detected_gpus.len() {
                    Some(&self.detected_gpus[idx])
                } else {
                    None
                }
            },
            None => None,
        }
    }

    /// Get all detected GPUs
    pub fn get_detected_gpus(&self) -> (r: &[GpuInfo])
        ensures
            gpus_view(r@) == self@.gpus,
    {
        self.detected_gpus.as_slice()
    }

    /// Detect if the system meets minimum gaming requirements
    pub fn meets_gaming_requirements(&self, requirements: &GamingRequirements) -> (r: bool)
        ensures
            r == hdmi_meets(primary_of(self@), *requirements),
    {
        match self.get_primary_gpu() {
            Some(gpu) => {
                match gpu.vram_mb {
                    Some(vram) => {
                        if vram < requirements.min_vram_mb {
                            return false;
                        }
                    },
                    None => {
                        if requirements.min_vram_mb > 0 {
                            return false;
                        }
                    },
                }
                if requirements.requires_vulkan && !gpu.supports_vulkan {
                    return false;
                }
                if requirements.requires_opengl && !gpu.supports_opengl {
                    return false;
                }
                if requirements.requires_raytracing && !gpu.supports_raytracing {
                    return false;
                }
                match gpu.max_resolution {
                    Some(res) => {
                        if res.width < requirements.min_width || res.height < requirements.min_height
                            || res.refresh_rate < requirements.min_refresh_rate {
                            return false;
                        }
                    },
                    None => {},
                }
                true
            },
            None => false,
        }
    }
}

/// The state after an attempt to initialise at `res`.
pub open spec fn init_outcome(before: HdmiState, res: HdmiResolution, r: Result<(), &'static str>, after: HdmiState) -> bool {
    if before.initialized {
        r == Err::<(), &'static str>("HDMI driver already initialized") && after == before
    } else {
        let n = (res.width * res.height * 4) as usize;
        &&& r is Ok
        &&& after == (HdmiState {
            initialized: true,
            resolution: Some(res),
            framebuffer: Some(Seq::new(n as nat, |i: int| 0u8)),
            framebuffer_size: n,
            ..before
        })
    }
}

/// The state after a pixel write at (`x`, `y`); `not_init` is the message
/// of an uninitialised driver.
pub open spec fn set_pixel_outcome(before: HdmiState, x: u32, y: u32, r: u8, g: u8, b: u8, a: u8,
    res: Result<(), &'static str>, after: HdmiState, not_init: &'static str) -> bool
{
    if !before.initialized {
        res == Err::<(), &'static str>(not_init) && after == before
    } else {
        let rs = before.resolution.unwrap();
        if x >= rs.width || y >= rs.height {
            res == Err::<(), &'static str>("Coordinates out of bounds") && after == before
        } else {
            &&& res is Ok
            &&& after == (HdmiState {
                framebuffer: Some(with_pixel(before.framebuffer.unwrap(), pixel_offset(rs.width, x, y), r, g, b, a)),
                ..before
            })
        }
    }
}


// ---------------------------------------------------------------------------
// What the host's tools report
// ---------------------------------------------------------------------------

/// The outputs of the host's graphics tools, each `None` where the tool
/// could not be run: `lspci -v`, `glxinfo`, `vulkaninfo` and
/// `xrandr --prop`. `xrandr_refresh[i]` is the refresh rate read from the
/// second word of line `i` of the xrandr output, where that word is a
/// decimal number (the fractional part dropped).
pub struct HostProbe {
    pub lspci: Option<String>,
    pub glxinfo: Option<String>,
    pub vulkaninfo: Option<String>,
    pub xrandr: Option<String>,
    pub xrandr_refresh: Vec<Option<u32>>,
}

/// A GPU that lspci lists without telling more.
pub open spec fn unknown_gpu() -> GpuInfoView {
    GpuInfoView {
        vendor: VendorView::Unknown,
        model: "Unknown"@,
        vram_mb: None,
        driver_version: None,
        supports_vulkan: false,
        supports_opengl: true,
        max_resolution: None,
        supports_hdr: false,
        supports_variable_refresh: false,
        supports_raytracing: false,
    }
}

/// The model name after the first `key` in `line` (up to a `[`, trimmed),
/// and the rest of the line from `key` on.
pub open spec fn model_after(line: Seq<char>, key: Seq<char>) -> Option<(Seq<char>, Seq<char>)> {
    match find_spec(line, key) {
        Some(idx) => {
            let part = line.skip(idx);
            Some((
                match find_spec(part, "["@) {
                    Some(end) => trim_seq(part.take(end)),
                    None => trim_seq(part),
                },
                part,
            ))
        },
        None => None,
    }
}

/// The GPU that an lspci controller line describes.
pub open spec fn lspci_gpu(line: Seq<char>) -> GpuInfoView {
    let base = unknown_gpu();
    if contains_seq(line, "NVIDIA"@) {
        match model_after(line, "NVIDIA"@) {
            Some((m, part)) => GpuInfoView {
                vendor: VendorView::Nvidia,
                model: m,
                supports_vulkan: true,
                supports_raytracing: contains_seq(part, "RTX"@),
                supports_variable_refresh: true,
                ..base
            },
            None => GpuInfoView { vendor: VendorView::Nvidia, supports_vulkan: true, supports_variable_refresh: true, ..base },
        }
    } else if contains_seq(line, "AMD"@) || contains_seq(line, "ATI"@) {
        match model_after(line, "AMD"@) {
            Some((m, part)) => GpuInfoView {
                vendor: VendorView::AMD,
                model: m,
                supports_vulkan: true,
                supports_raytracing: contains_seq(part, "Radeon RX 6"@) || contains_seq(part, "Radeon RX 7"@),
                supports_variable_refresh: true,
                ..base
            },
            None => GpuInfoView { vendor: VendorView::AMD, supports_vulkan: true, supports_variable_refresh: true, ..base },
        }
    } else if contains_seq(line, "Intel"@) {
        match model_after(line, "Intel"@) {
            Some((m, part)) => GpuInfoView {
                vendor: VendorView::Intel,
                model: m,
                supports_raytracing: contains_seq(part, "Arc"@),
                supports_variable_refresh: contains_seq(m, "UHD"@) || contains_seq(m, "Iris"@) || contains_seq(m, "Arc"@),
                ..base
            },
            None => GpuInfoView { vendor: VendorView::Intel, ..base },
        }
    } else if contains_seq(line, "VMware"@) {
        GpuInfoView { vendor: VendorView::VMware, model: "VMware Virtual GPU"@, ..base }
    } else if contains_seq(line, "VirtualBox"@) {
        GpuInfoView { vendor: VendorView::VirtualBox, model: "VirtualBox Graphics Adapter"@, ..base }
    } else {
        let parts = split_seq(line, ':');
        if parts.len() > 1 {
            GpuInfoView { vendor: VendorView::Other(trim_seq(parts[1])), model: trim_seq(parts[1]), ..base }
        } else {
            base
        }
    }
}

/// An lspci line that names a display controller.
pub open spec fn is_display_line(line: Seq<char>) -> bool {
    contains_seq(line, "VGA compatible controller"@) || contains_seq(line, "3D controller"@)
        || contains_seq(line, "Display controller"@)
}

/// The GPUs that a list of lspci lines describes, in order.
pub open spec fn lspci_gpus(lines: Seq<Seq<char>>) -> Seq<GpuInfoView>
    decreases lines.len(),
{
    if lines.len() == 0 {
        Seq::empty()
    } else {
        lspci_gpus(lines.drop_last()) + if is_display_line(lines.last()) {
            seq![lspci_gpu(lines.last())]
        } else {
            Seq::empty()
        }
    }
}

/// What one glxinfo line tells of a GPU.
pub open spec fn glx_line(g: GpuInfoView, line: Seq<char>) -> GpuInfoView {
    let parts = split_seq(line, ':');
    let g1 = if starts_with_seq(line, "OpenGL version string:"@) {
        GpuInfoView {
            driver_version: Some(trim_seq(if parts.len() > 1 { parts[1] } else { Seq::empty() })),
            supports_opengl: true,
            ..g
        }
    } else {
        g
    };
    if contains_seq(line, "Vulkan"@) { GpuInfoView { supports_vulkan: true, ..g1 } } else { g1 }
}

/// A GPU after the glxinfo lines `lines`.
pub open spec fn glx_fold(g: GpuInfoView, lines: Seq<Seq<char>>) -> GpuInfoView
    decreases lines.len(),
{
    if lines.len() == 0 { g } else { glx_line(glx_fold(g, lines.drop_last()), lines.last()) }
}

/// A GPU once vulkaninfo ran and printed `out`.
pub open spec fn vulkan_update(g: GpuInfoView, out: Seq<char>) -> GpuInfoView {
    GpuInfoView {
        supports_vulkan: true,
        supports_raytracing: g.supports_raytracing || contains_seq(out, "VK_KHR_ray_tracing"@)
            || contains_seq(out, "VK_NV_ray_tracing"@),
        ..g
    }
}

/// The largest mode (width, height), the highest refresh rate and whether
/// BT2020 colorimetry was seen.
#[derive(Clone, Copy)]
pub struct ModeScan {
    pub width: u32,
    pub height: u32,
    pub refresh: u32,
    pub hdr: bool,
}

/// The width and height of a mode word `WxH`, where both parse.
pub open spec fn mode_size_of(word: Seq<char>) -> Option<(u32, u32)> {
    match find_spec(word, "x"@) {
        Some(sep) => match (
            parse_unsigned(word.take(sep), 10, u32::MAX as int),
            parse_unsigned(word.skip(sep + 1), 10, u32::MAX as int),
        ) {
            (Some(w), Some(h)) => Some((w as u32, h as u32)),
            _ => None,
        },
        None => None,
    }
}

/// What one xrandr line adds to a scan; `refresh` is the rate read from its
/// second word.
pub open spec fn mode_line(st: ModeScan, line: Seq<char>, refresh: Option<u32>) -> ModeScan {
    if contains_seq(line, " connected "@) {
        st
    } else {
        let t = trim_seq(line);
        let st1 = if starts_with_seq(t, "19"@) || starts_with_seq(t, "25"@) || starts_with_seq(t, "38"@) {
            let parts = words_seq(t);
            let st_a = if parts.len() > 0 {
                match mode_size_of(parts[0]) {
                    Some((w, h)) => if w * h > st.width * st.height { ModeScan { width: w, height: h, ..st } } else { st },
                    None => st,
                }
            } else {
                st
            };
            if parts.len() > 1 {
                match refresh {
                    Some(r) => if r > st_a.refresh { ModeScan { refresh: r, ..st_a } } else { st_a },
                    None => st_a,
                }
            } else {
                st_a
            }
        } else {
            st
        };
        if contains_seq(line, "Colorimetry:"@) && contains_seq(line, "BT2020"@) {
            ModeScan { hdr: true, ..st1 }
        } else {
            st1
        }
    }
}

/// The refresh rate read from line `i`, if one was.
pub open spec fn refresh_at(rs: Seq<Option<u32>>, i: int) -> Option<u32> {
    if 0 <= i < rs.len() { rs[i] } else { None }
}

/// The scan of the first `n` xrandr lines.
pub open spec fn mode_fold(lines: Seq<Seq<char>>, rs: Seq<Option<u32>>, n: nat) -> ModeScan
    decreases n,
{
    if n == 0 {
        ModeScan { width: 0, height: 0, refresh: 0, hdr: false }
    } else {
        mode_line(mode_fold(lines, rs, (n - 1) as nat), lines[n - 1], refresh_at(rs, n - 1))
    }
}

/// A GPU given what xrandr showed: the largest mode and HDR, where a mode was seen.
pub open spec fn monitor_update(g: GpuInfoView, st: ModeScan) -> GpuInfoView {
    if st.width > 0 && st.height > 0 {
        GpuInfoView {
            max_resolution: Some(HdmiResolution { width: st.width, height: st.height, refresh_rate: st.refresh }),
            supports_hdr: st.hdr,
            ..g
        }
    } else {
        g
    }
}

/// The opened `s`, or nothing.
pub open spec fn opt_view(s: Option<String>) -> Option<Seq<char>> {
    match s {
        Some(x) => Some(x@),
        None => None,
    }
}

/// The GPUs that a probe reports: lspci's list, its first entry completed
/// from glxinfo, vulkaninfo and xrandr.
pub open spec fn probe_gpus(p: HostProbe) -> Seq<GpuInfoView> {
    let listed = match opt_view(p.lspci) {
        Some(o) => lspci_gpus(lines_seq(o)),
        None => Seq::empty(),
    };
    if listed.len() == 0 {
        listed
    } else {
        let g0 = listed[0];
        let g1 = match opt_view(p.glxinfo) {
            Some(o) => glx_fold(g0, lines_seq(o)),
            None => g0,
        };
        let g2 = match opt_view(p.vulkaninfo) {
            Some(o) => vulkan_update(g1, o),
            None => g1,
        };
        let g3 = match opt_view(p.xrandr) {
            Some(o) => monitor_update(g2, mode_fold(lines_seq(o), p.xrandr_refresh@, lines_seq(o).len())),
            None => g2,
        };
        listed.update(0, g3)
    }
}

/// The model and rest of line after `key`, where `key` occurs.
fn model_after_exec(line: &Vec<char>, key: &str) -> (r: Option<(Vec<char>, Vec<char>)>)
    ensures
        match model_after(line@, key@) {
            Some((m, part)) => r is Some && r->Some_0.0@ == m && r->Some_0.1@ == part,
            None => r is None,
        },
{
    let kc = chars_of(key);
    match find_chars(line, &kc) {
        Some(idx) => {
            let part = slice_chars(line, idx, line.len());
            assert(part@ =~= line@.skip(idx as int));
            let bracket = chars_of("[");
            let model = match find_chars(&part, &bracket) {
                Some(end) => {
                    let head = slice_chars(&part, 0, end);
                    assert(head@ =~= part@.take(end as int));
                    trim_chars(&head)
                },
                None => trim_chars(&part),
            };
            Some((model, part))
        },
        None => None,
    }
}

/// A GPU description built from its view's parts.
fn gpu_of(vendor: GpuVendor, model: String, supports_vulkan: bool, supports_raytracing: bool,
    supports_variable_refresh: bool) -> (g: GpuInfo)
    ensures
        g@ == (GpuInfoView {
            vendor: vendor@,
            model: model@,
            supports_vulkan,
            supports_raytracing,
            supports_variable_refresh,
            ..unknown_gpu()
        }),
{
    GpuInfo {
        vendor,
        model,
        vram_mb: None,
        driver_version: None,
        supports_vulkan,
        supports_opengl: true,
        max_resolution: None,
        supports_hdr: false,
        supports_variable_refresh,
        supports_raytracing,
    }
}

/// The GPU that an lspci controller line describes.
fn lspci_gpu_exec(line: &Vec<char>) -> (g: GpuInfo)
    ensures
        g@ == lspci_gpu(line@),
{
    if contains_str(line, "NVIDIA") {
        match model_after_exec(line, "NVIDIA") {
            Some((m, part)) => {
                let rt = contains_str(&part, "RTX");
                gpu_of(GpuVendor::Nvidia, string_from_chars(&m), true, rt, true)
            },
            None => gpu_of(GpuVendor::Nvidia, string_from_str("Unknown"), true, false, true),
        }
    } else if contains_str(line, "AMD") || contains_str(line, "ATI") {
        match model_after_exec(line, "AMD") {
            Some((m, part)) => {
                let rt = contains_str(&part, "Radeon RX 6") || contains_str(&part, "Radeon RX 7");
                gpu_of(GpuVendor::AMD, string_from_chars(&m), true, rt, true)
            },
            None => gpu_of(GpuVendor::AMD, string_from_str("Unknown"), true, false, true),
        }
    } else if contains_str(line, "Intel") {
        match model_after_exec(line, "Intel") {
            Some((m, part)) => {
                let rt = contains_str(&part, "Arc");
                let vrr = contains_str(&m, "UHD") || contains_str(&m, "Iris") || contains_str(&m, "Arc");
                gpu_of(GpuVendor::Intel, string_from_chars(&m), false, rt, vrr)
            },
            None => gpu_of(GpuVendor::Intel, string_from_str("Unknown"), false, false, false),
        }
    } else if contains_str(line, "VMware") {
        gpu_of(GpuVendor::VMware, string_from_str("VMware Virtual GPU"), false, false, false)
    } else if contains_str(line, "VirtualBox") {
        gpu_of(GpuVendor::VirtualBox, string_from_str("VirtualBox Graphics Adapter"), false, false, false)
    } else {
        let parts = split_chars(line, ':');
        if parts.len() > 1 {
            assert(pieces_view(parts@)[1] == parts@[1]@);
            let desc = trim_chars(&parts[1]);
            gpu_of(GpuVendor::Other(string_from_chars(&desc)), string_from_chars(&desc), false, false, false)
        } else {
            gpu_of(GpuVendor::Unknown, string_from_str("Unknown"), false, false, false)
        }
    }
}

/// Whether an lspci line names a display controller.
fn is_display_line_exec(line: &Vec<char>) -> (r: bool)
    ensures
        r == is_display_line(line@),
{
    contains_str(line, "VGA compatible controller") || contains_str(line, "3D controller")
        || contains_str(line, "Display controller")
}

/// The GPUs that an lspci output describes.
fn lspci_scan(output: &str) -> (r: Vec<GpuInfo>)
    ensures
        gpus_view(r@) == lspci_gpus(lines_seq(output@)),
{
    let oc = chars_of(output);
    let lines = lines_of(&oc);
    let ghost ls = pieces_view(lines@);
    let mut out: Vec<GpuInfo> = Vec::new();
    let mut i: usize = 0;
    assert(ls.take(0) =~= Seq::<Seq<char>>::empty());
    while i < lines.len()
        invariant
            i <= lines@.len(),
            ls == pieces_view(lines@),
            ls == lines_seq(output@),
            gpus_view(out@) == lspci_gpus(ls.take(i as int)),
        decreases lines@.len() - i,
    {
        assert(ls.take(i + 1).drop_last() =~= ls.take(i as int));
        assert(ls.take(i + 1).last() == lines@[i as int]@);
        if is_display_line_exec(&lines[i]) {
            let g = lspci_gpu_exec(&lines[i]);
            out.push(g);
        }
        assert(gpus_view(out@) =~= lspci_gpus(ls.take(i + 1)));
        i += 1;
    }
    assert(ls.take(ls.len() as int) =~= ls);
    out
}


/// What one glxinfo line tells of `g`.
fn glx_line_exec(g: &mut GpuInfo, line: &Vec<char>)
    ensures
        final(g)@ == glx_line(old(g)@, line@),
{
    if starts_with_str(line, "OpenGL version string:") {
        let parts = split_chars(line, ':');
        let version = if parts.len() > 1 {
            assert(pieces_view(parts@)[1] == parts@[1]@);
            trim_chars(&parts[1])
        } else {
            let empty: Vec<char> = Vec::new();
            assert(trim_seq(empty@) =~= Seq::<char>::empty()) by {
                assert(crate::scan::trim_start_seq(empty@) == empty@);
            }
            empty
        };
        g.driver_version = Some(string_from_chars(&version));
        g.supports_opengl = true;
    }
    if contains_str(line, "Vulkan") {
        g.supports_vulkan = true;
    }
}

/// `g` after the glxinfo output `output`.
fn glx_scan(g: &mut GpuInfo, output: &str)
    ensures
        final(g)@ == glx_fold(old(g)@, lines_seq(output@)),
{
    let oc = chars_of(output);
    let lines = lines_of(&oc);
    let ghost ls = pieces_view(lines@);
    let mut i: usize = 0;
    assert(ls.take(0) =~= Seq::<Seq<char>>::empty());
    while i < lines.len()
        invariant
            i <= lines@.len(),
            ls == pieces_view(lines@),
            ls == lines_seq(output@),
            g@ == glx_fold(old(g)@, ls.take(i as int)),
        decreases lines@.len() - i,
    {
        assert(ls.take(i + 1).drop_last() =~= ls.take(i as int));
        assert(ls.take(i + 1).last() == lines@[i as int]@);
        glx_line_exec(g, &lines[i]);
        i += 1;
    }
    assert(ls.take(ls.len() as int) =~= ls);
}

/// `g` once vulkaninfo ran and printed `output`.
fn vulkan_scan(g: &mut GpuInfo, output: &str)
    ensures
        final(g)@ == vulkan_update(old(g)@, output@),
{
    g.supports_vulkan = true;
    let oc = chars_of(output);
    if contains_str(&oc, "VK_KHR_ray_tracing") || contains_str(&oc, "VK_NV_ray_tracing") {
        g.supports_raytracing = true;
    }
}

/// The width and height of a mode word `WxH`, where both parse.
fn mode_size_exec(word: &Vec<char>) -> (r: Option<(u32, u32)>)
    ensures
        r == mode_size_of(word@),
{
    let _word_len = word.len();
    let x = chars_of("x");
    proof {
        reveal_strlit("x");
    }
    match find_chars(word, &x) {
        Some(sep) => {
            let wpart = slice_chars(word, 0, sep);
            let hpart = slice_chars(word, sep + 1, word.len());
            assert(wpart@ =~= word@.take(sep as int));
            assert(hpart@ =~= word@.skip(sep + 1));
            match (parse_u32(&wpart), parse_u32(&hpart)) {
                (Some(w), Some(h)) => Some((w, h)),
                _ => None,
            }
        },
        None => None,
    }
}

/// The number of pixels of a `w` by `h` mode.
fn area(w: u32, h: u32) -> (r: u64)
    ensures
        r == w * h,
{
    assert(w * h <= 0xFFFF_FFFFu64 * 0xFFFF_FFFFu64) by (nonlinear_arith)
        requires
            w <= 0xFFFF_FFFFu32,
            h <= 0xFFFF_FFFFu32,
    ;
    (w as u64) * (h as u64)
}

/// What one xrandr line adds to a scan.
fn mode_line_exec(st: ModeScan, line: &Vec<char>, refresh: Option<u32>) -> (r: ModeScan)
    ensures
        r == mode_line(st, line@, refresh),
{
    if contains_str(line, " connected ") {
        return st;
    }
    let t = trim_chars(line);
    let mut st1 = st;
    if starts_with_str(&t, "19") || starts_with_str(&t, "25") || starts_with_str(&t, "38") {
        let parts = words_of(&t);
        if parts.len() > 0 {
            assert(pieces_view(parts@)[0] == parts@[0]@);
            match mode_size_exec(&parts[0]) {
                Some((w, h)) => {
                    if area(w, h) > area(st.width, st.height) {
                        st1 = ModeScan { width: w, height: h, ..st };
                    }
                },
                None => {},
            }
        }
        if parts.len() > 1 {
            match refresh {
                Some(r) => {
                    if r > st1.refresh {
                        st1 = ModeScan { refresh: r, ..st1 };
                    }
                },
                None => {},
            }
        }
    }
    if contains_str(line, "Colorimetry:") && contains_str(line, "BT2020") {
        st1 = ModeScan { hdr: true, ..st1 };
    }
    st1
}

/// The scan of all the lines of an xrandr output.
fn mode_scan(output: &str, refresh: &Vec<Option<u32>>) -> (r: ModeScan)
    ensures
        r == mode_fold(lines_seq(output@), refresh@, lines_seq(output@).len()),
{
    let oc = chars_of(output);
    let lines = lines_of(&oc);
    let ghost ls = pieces_view(lines@);
    let mut st = ModeScan { width: 0, height: 0, refresh: 0, hdr: false };
    let mut i: usize = 0;
    while i < lines.len()
        invariant
            i <= lines@.len(),
            ls == pieces_view(lines@),
            ls == lines_seq(output@),
            st == mode_fold(ls, refresh@, i as nat),
        decreases lines@.len() - i,
    {
        let rate = if i < refresh.len() { refresh[i] } else { None };
        assert(ls[i as int] == lines@[i as int]@);
        st = mode_line_exec(st, &lines[i], rate);
        i += 1;
    }
    st
}

impl HdmiDriver {
    /// Detects graphics cards from what the host's tools report; the first
    /// one found becomes the primary GPU.
    pub fn detect_graphics_hardware(&mut self, probe: &HostProbe) -> (r: Result<(), &'static str>)
        requires
            old(self).wf(),
        ensures
            final(self).wf(),
            final(self)@ == (HdmiState {
                gpus: probe_gpus(*probe),
                primary: if probe_gpus(*probe).len() > 0 { Some(0usize) } else { None },
                ..old(self)@
            }),
            probe_gpus(*probe).len() > 0 ==> r is Ok,
            probe_gpus(*probe).len() == 0 ==> r == Err::<(), &'static str>("No graphics hardware detected"),
    {
        self.detected_gpus = Vec::new();
        self.primary_gpu = None;
        match self.detect_graphics_hardware_std(probe) {
            Ok(()) => {},
            Err(e) => {
                return Err(e);
            },
        }
        if self.detected_gpus.len() > 0 {
            self.primary_gpu = Some(0);
            Ok(())
        } else {
            Err("No graphics hardware detected")
        }
    }

    /// Runs every host detection over an emptied list of GPUs.
    fn detect_graphics_hardware_std(&mut self, probe: &HostProbe) -> (r: Result<(), &'static str>)
        requires
            old(self).wf(),
            old(self)@.gpus.len() == 0,
        ensures
            final(self).wf(),
            r is Ok,
            final(self)@ == (HdmiState { gpus: probe_gpus(*probe), ..old(self)@ }),
    {
        match &probe.lspci {
            Some(o) => {
                self.detected_gpus = lspci_scan(o.as_str());
            },
            None => {},
        }
        if self.detected_gpus.len() > 0 {
            match &probe.glxinfo {
                Some(o) => {
                    glx_scan(&mut self.detected_gpus[0], o.as_str());
                },
                None => {},
            }
            match &probe.vulkaninfo {
                Some(o) => {
                    vulkan_scan(&mut self.detected_gpus[0], o.as_str());
                },
                None => {},
            }
            match &probe.xrandr {
                Some(o) => {
                    let st = mode_scan(o.as_str(), &probe.xrandr_refresh);
                    if st.width > 0 && st.height > 0 {
                        self.detected_gpus[0].max_resolution = Some(
                            HdmiResolution { width: st.width, height: st.height, refresh_rate: st.refresh },
                        );
                        self.detected_gpus[0].supports_hdr = st.hdr;
                    }
                },
                None => {},
            }
        }
        assert(gpus_view(self.detected_gpus@) =~= probe_gpus(*probe));
        Ok(())
    }

    /// Reads the monitor's EDID block: the hex dump in `xrandr --prop
    /// --verbose` output, else the bytes of the kernel's EDID file.
    pub fn read_edid(&self, xrandr_verbose: Option<&str>, edid_file: Option<Vec<u8>>) -> (r: Result<Vec<u8>, &'static str>)
        ensures
            ({
                let dumped = match xrandr_verbose {
                    Some(o) => edid_dump(lines_seq(o@)),
                    None => Seq::empty(),
                };
                if dumped.len() > 0 {
                    r is Ok && r->Ok_0@ == dumped
                } else {
                    match edid_file {
                        Some(f) => if f@.len() > 0 {
                            r is Ok && r->Ok_0@ == f@
                        } else {
                            r == Err::<Vec<u8>, &'static str>("Could not read EDID data")
                        },
                        None => r == Err::<Vec<u8>, &'static str>("Could not read EDID data"),
                    }
                }
            }),
    {
        match xrandr_verbose {
            Some(o) => {
                let data = edid_dump_exec(o);
                if data.len() > 0 {
                    return Ok(data);
                }
            },
            None => {},
        }
        match edid_file {
            Some(f) => {
                if f.len() > 0 {
                    return Ok(f);
                }
            },
            None => {},
        }
        Err("Could not read EDID data")
    }
}

/// The bytes of the hex words of `words`, those that parse as bytes.
pub open spec fn hex_bytes(words: Seq<Seq<char>>) -> Seq<u8>
    decreases words.len(),
{
    if words.len() == 0 {
        Seq::empty()
    } else {
        hex_bytes(words.drop_last()) + match parse_unsigned(words.last(), 16, 255) {
            Some(b) => seq![b as u8],
            None => Seq::empty(),
        }
    }
}

/// The EDID dump in xrandr's verbose lines, as a fold: the bytes so far and
/// whether a dump is being read.
pub open spec fn edid_dump_acc(lines: Seq<Seq<char>>) -> (Seq<u8>, bool)
    decreases lines.len(),
{
    if lines.len() == 0 {
        (Seq::empty(), false)
    } else {
        let (data, capture) = edid_dump_acc(lines.drop_last());
        let line = lines.last();
        if contains_seq(line, "EDID:"@) {
            (data, true)
        } else if capture && trim_seq(line).len() == 0 {
            (data, false)
        } else if capture {
            (data + hex_bytes(words_seq(trim_seq(line))), true)
        } else {
            (data, false)
        }
    }
}

/// The EDID bytes that xrandr's verbose lines dump.
pub open spec fn edid_dump(lines: Seq<Seq<char>>) -> Seq<u8> {
    edid_dump_acc(lines).0
}

/// The bytes of the hex words of one dump line.
fn hex_line(line: &Vec<char>) -> (r: Vec<u8>)
    ensures
        r@ == hex_bytes(words_seq(trim_seq(line@))),
{
    let t = trim_chars(line);
    let words = words_of(&t);
    let ghost ws = pieces_view(words@);
    let mut out: Vec<u8> = Vec::new();
    let mut i: usize = 0;
    assert(ws.take(0) =~= Seq::<Seq<char>>::empty());
    while i < words.len()
        invariant
            i <= words@.len(),
            ws == pieces_view(words@),
            ws == words_seq(trim_seq(line@)),
            out@ == hex_bytes(ws.take(i as int)),
        decreases words@.len() - i,
    {
        assert(ws.take(i + 1).drop_last() =~= ws.take(i as int));
        assert(ws.take(i + 1).last() == words@[i as int]@);
        match crate::scan::parse_hex_u8(&words[i]) {
            Some(b) => {
                out.push(b);
            },
            None => {},
        }
        assert(out@ =~= hex_bytes(ws.take(i + 1)));
        i += 1;
    }
    assert(ws.take(ws.len() as int) =~= ws);
    out
}

/// The EDID bytes dumped in xrandr's verbose output.
fn edid_dump_exec(output: &str) -> (r: Vec<u8>)
    ensures
        r@ == edid_dump(lines_seq(output@)),
{
    let oc = chars_of(output);
    let lines = lines_of(&oc);
    let ghost ls = pieces_view(lines@);
    let mut data: Vec<u8> = Vec::new();
    let mut capture = false;
    let mut i: usize = 0;
    assert(ls.take(0) =~= Seq::<Seq<char>>::empty());
    while i < lines.len()
        invariant
            i <= lines@.len(),
            ls == pieces_view(lines@),
            ls == lines_seq(output@),
            (data@, capture) == edid_dump_acc(ls.take(i as int)),
        decreases lines@.len() - i,
    {
        assert(ls.take(i + 1).drop_last() =~= ls.take(i as int));
        assert(ls.take(i + 1).last() == lines@[i as int]@);
        if contains_str(&lines[i], "EDID:") {
            capture = true;
        } else {
            let t = trim_chars(&lines[i]);
            if capture && t.len() == 0 {
                capture = false;
            } else if capture {
                let bytes = hex_line(&lines[i]);
                let mut k: usize = 0;
                let ghost before = data@;
                while k < bytes.len()
                    invariant
                        k <= bytes@.len(),
                        data@ == before + bytes@.take(k as int),
                    decreases bytes@.len() - k,
                {
                    data.push(bytes[k]);
                    assert(bytes@.take(k + 1) =~= bytes@.take(k as int).push(bytes@[k as int]));
                    k += 1;
                }
                assert(bytes@.take(bytes@.len() as int) =~= bytes@);
            } else {
                capture = false;
            }
        }
        i += 1;
    }
    assert(ls.take(ls.len() as int) =~= ls);
    data
}


/// An exact copy of a GPU description.
pub fn copy_gpu(g: &GpuInfo) -> (r: GpuInfo)
    ensures
        r@ == g@,
{
    let vendor = match &g.vendor {
        GpuVendor::Nvidia => GpuVendor::Nvidia,
        GpuVendor::AMD => GpuVendor::AMD,
        GpuVendor::Intel => GpuVendor::Intel,
        GpuVendor::VMware => GpuVendor::VMware,
        GpuVendor::VirtualBox => GpuVendor::VirtualBox,
        GpuVendor::Other(name) => GpuVendor::Other(crate::text::copy_string(name)),
        GpuVendor::Unknown => GpuVendor::Unknown,
    };
    let driver_version = match &g.driver_version {
        Some(d) => Some(crate::text::copy_string(d)),
        None => None,
    };
    GpuInfo {
        vendor,
        model: crate::text::copy_string(&g.model),
        vram_mb: g.vram_mb,
        driver_version,
        supports_vulkan: g.supports_vulkan,
        supports_opengl: g.supports_opengl,
        max_resolution: g.max_resolution,
        supports_hdr: g.supports_hdr,
        supports_variable_refresh: g.supports_variable_refresh,
        supports_raytracing: g.supports_raytracing,
    }
}

/// Detects the graphics hardware that `probe` reports.
pub fn detect_graphics_hardware(driver: &mut HdmiDriver, probe: &HostProbe) -> (r: Result<(), &'static str>)
    requires
        old(driver).wf(),
    ensures
        final(driver).wf(),
        final(driver)@ == (HdmiState {
            gpus: probe_gpus(*probe),
            primary: if probe_gpus(*probe).len() > 0 { Some(0usize) } else { None },
            ..old(driver)@
        }),
        probe_gpus(*probe).len() > 0 ==> r is Ok,
        probe_gpus(*probe).len() == 0 ==> r == Err::<(), &'static str>("No graphics hardware detected"),
{
    driver.detect_graphics_hardware(probe)
}

/// A copy of the primary GPU's description.
pub fn get_primary_gpu(driver: &HdmiDriver) -> (r: Option<GpuInfo>)
    ensures
        match primary_of(driver@) {
            Some(g) => r is Some && r->Some_0@ == g,
            None => r is None,
        },
{
    match driver.get_primary_gpu() {
        Some(g) => Some(copy_gpu(g)),
        None => None,
    }
}

pub fn meets_gaming_requirements(driver: &HdmiDriver, requirements: &GamingRequirements) -> (r: bool)
    ensures
        r == hdmi_meets(primary_of(driver@), *requirements),
{
    driver.meets_gaming_requirements(requirements)
}

pub fn set_resolution(driver: &mut HdmiDriver, resolution: HdmiResolution) -> (r: Result<(), &'static str>)
    requires
        old(driver).wf(),
        resolution.width * resolution.height * 4 <= usize::MAX,
    ensures
        final(driver).wf(),
        init_outcome(old(driver)@, resolution, r, final(driver)@),
{
    driver.init_with_resolution(resolution)
}

pub fn init(driver: &mut HdmiDriver) -> (r: Result<(), &'static str>)
    requires
        old(driver).wf(),
    ensures
        final(driver).wf(),
        init_outcome(old(driver)@, HdmiResolution { width: 1920, height: 1080, refresh_rate: 60 }, r, final(driver)@),
{
    driver.init()
}

pub fn clear_screen(driver: &mut HdmiDriver, r: u8, g: u8, b: u8) -> (res: Result<(), &'static str>)
    requires
        old(driver).wf(),
    ensures
        final(driver).wf(),
        !old(driver)@.initialized ==> res == Err::<(), &'static str>("HDMI driver not initialized")
            && final(driver)@ == old(driver)@,
        old(driver)@.initialized ==> res is Ok && final(driver)@ == (HdmiState {
            framebuffer: Some(cleared(old(driver)@.framebuffer_size as nat, r, g, b)),
            ..old(driver)@
        }),
{
    driver.clear_screen(r, g, b)
}

pub fn set_pixel(driver: &mut HdmiDriver, x: u32, y: u32, r: u8, g: u8, b: u8, a: u8) -> (res: Result<(), &'static str>)
    requires
        old(driver).wf(),
        offset_fits(old(driver)@.resolution, x, y),
    ensures
        final(driver).wf(),
        set_pixel_outcome(old(driver)@, x, y, r, g, b, a, res, final(driver)@, "HDMI driver not initialized"),
{
    driver.set_pixel(x, y, r, g, b, a)
}

pub fn flush(driver: &HdmiDriver) -> (r: Result<(), &'static str>)
    ensures
        !driver@.initialized ==> r == Err::<(), &'static str>("HDMI driver not initialized"),
        driver@.initialized ==> r is Ok,
{
    driver.flush()
}

} // verus!
