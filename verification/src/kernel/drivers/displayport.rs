//! DisplayPort output: link configuration, adaptive sync and multi-stream
//! transport, over a framebuffer like the HDMI one.

use vstd::prelude::*;
use crate::kernel::drivers::hdmi::{
    cleared, fill_rgb, offset_fits, pixel_offset, put_pixel, with_pixel, zeroed, GamingRequirements, GpuInfo,
    GpuInfoView, GpuVendor, HdmiResolution,
};
use crate::scan::{contains_seq, contains_str};
use crate::text::{chars_of, string_from_str};

verus! {

/// DisplayPort resolution configuration - same structure as HDMI for compatibility
pub type DisplayPortResolution = HdmiResolution;

/// DisplayPort link rates (in Gbps)
#[derive(Debug, Clone, Copy, PartialEq, Eq, Structural)]
pub enum DisplayPortLinkRate {
    RBR1_62,
    HBR2_7,
    HBR35_4,
    HBR48_1,
    UHBR10,
    UHBR13_5,
    UHBR20,
}

/// DisplayPort lane count
#[derive(Debug, Clone, Copy, PartialEq, Eq, Structural)]
pub enum DisplayPortLanes {
    Single,
    Dual,
    Quad,
}

/// DisplayPort color format
#[derive(Debug, Clone, Copy, PartialEq, Eq, Structural)]
pub enum DisplayPortColorFormat {
    RGB,
    YCbCr444,
    YCbCr422,
    YCbCr420,
    DSC,
}

/// DisplayPort MST (Multi-Stream Transport) configuration
#[derive(Debug, Clone, Copy, PartialEq, Eq, Structural)]
pub struct MstConfig {
    pub enabled: bool,
    pub max_streams: u8,
    pub topology_id: Option<u32>,
}

/// DisplayPort driver state
pub struct DisplayPortDriver {
    initialized: bool,
    current_resolution: Option<DisplayPortResolution>,
    color_format: DisplayPortColorFormat,
    framebuffer: Option<Vec<u8>>,
    framebuffer_size: usize,
    link_rate: DisplayPortLinkRate,
    lane_count: DisplayPortLanes,
    adaptive_sync_enabled: bool,
    mst_config: Option<MstConfig>,
    gpu_info: Option<GpuInfo>,
}

/// DisplayPort monitor capabilities
#[derive(Debug, Clone)]
pub struct DisplayPortMonitorCaps {
    pub manufacturer: String,
    pub product_code: u16,
    pub serial: u32,
    pub manufacture_date: String,
    pub name: String,
    pub max_resolution: DisplayPortResolution,
    pub supports_hdr: bool,
    pub supports_adaptive_sync: bool,
    pub min_refresh_rate: Option<u32>,
    pub max_refresh_rate: Option<u32>,
    pub max_link_rate: DisplayPortLinkRate,
    pub max_lane_count: DisplayPortLanes,
    pub supports_mst: bool,
    pub supports_dsc: bool,
}

/// The driver as the contracts see it.
pub struct DpState {
    pub initialized: bool,
    pub resolution: Option<DisplayPortResolution>,
    pub color_format: DisplayPortColorFormat,
    pub framebuffer: Option<Seq<u8>>,
    pub framebuffer_size: usize,
    pub link_rate: DisplayPortLinkRate,
    pub lane_count: DisplayPortLanes,
    pub adaptive_sync: bool,
    pub mst: Option<MstConfig>,
    pub gpu: Option<GpuInfoView>,
}

impl View for DisplayPortDriver {
    type V = DpState;

    closed spec fn view(&self) -> DpState {
        DpState {
            initialized: self.initialized,
            resolution: self.current_resolution,
            color_format: self.color_format,
            framebuffer: match self.framebuffer {
                Some(fb) => Some(fb@),
                None => None,
            },
            framebuffer_size: self.framebuffer_size,
            link_rate: self.link_rate,
            lane_count: self.lane_count,
            adaptive_sync: self.adaptive_sync_enabled,
            mst: self.mst_config,
            gpu: match self.gpu_info {
                Some(g) => Some(g@),
                None => None,
            },
        }
    }
}

/// The framebuffer invariant, as for HDMI.
pub open spec fn dp_framebuffer_ok(s: DpState) -> bool {
    &&& match s.framebuffer {
        Some(fb) => fb.len() == s.framebuffer_size,
        None => true,
    }
    &&& s.framebuffer_size % 4 == 0
    &&& match s.resolution {
        Some(r) => s.framebuffer_size == r.width * r.height * 4,
        None => true,
    }
    &&& s.initialized ==> s.resolution is Some && s.framebuffer is Some
}

/// The GPU assumed when only xrandr shows a DisplayPort connection.
pub open spec fn dp_unknown_gpu() -> GpuInfoView {
    GpuInfoView {
        vendor: crate::kernel::drivers::hdmi::VendorView::Unknown,
        model: "Unknown DisplayPort GPU"@,
        vram_mb: None,
        driver_version: None,
        supports_vulkan: false,
        supports_opengl: true,
        max_resolution: Some(HdmiResolution { width: 3840, height: 2160, refresh_rate: 60 }),
        supports_hdr: false,
        supports_variable_refresh: false,
        supports_raytracing: false,
    }
}

/// The GPU that detection settles on: the HDMI driver's primary GPU, else
/// an unknown one where xrandr shows a DisplayPort connection; an xrandr
/// output without one is refused.
pub open spec fn dp_gpu_outcome(primary: Option<GpuInfoView>, xrandr: Option<Seq<char>>, before: Option<GpuInfoView>)
    -> Result<Option<GpuInfoView>, &'static str>
{
    match primary {
        Some(g) => Ok(Some(g)),
        None => match xrandr {
            Some(o) => if contains_seq(o, "DisplayPort"@) || contains_seq(o, "DP-"@) {
                Ok(Some(dp_unknown_gpu()))
            } else {
                Err("No DisplayPort connections detected")
            },
            None => Ok(before),
        },
    }
}

/// The link rate that an xrandr output advertises.
pub open spec fn advertised_rate(o: Seq<char>) -> DisplayPortLinkRate {
    if contains_seq(o, "DP-1.4"@) || contains_seq(o, "DisplayPort 1.4"@) {
        DisplayPortLinkRate::HBR48_1
    } else if contains_seq(o, "DP-1.3"@) || contains_seq(o, "DisplayPort 1.3"@) {
        DisplayPortLinkRate::HBR35_4
    } else if contains_seq(o, "DP-1.2"@) || contains_seq(o, "DisplayPort 1.2"@) {
        DisplayPortLinkRate::HBR35_4
    } else {
        DisplayPortLinkRate::HBR2_7
    }
}

/// The state after the monitor's capabilities are read from xrandr: an
/// adaptive-sync monitor turns adaptive sync on, sets the link rate, and
/// with MST a four-stream configuration.
pub open spec fn dp_monitor_outcome(s: DpState, xrandr: Option<Seq<char>>) -> DpState {
    match xrandr {
        Some(o) => if contains_seq(o, "FreeSync"@) || contains_seq(o, "adaptive-sync"@) {
            DpState {
                adaptive_sync: true,
                link_rate: advertised_rate(o),
                mst: if contains_seq(o, "MST"@) {
                    Some(MstConfig { enabled: true, max_streams: 4, topology_id: None })
                } else {
                    s.mst
                },
                ..s
            }
        } else {
            s
        },
        None => s,
    }
}

/// The state after initialisation at `res` from `before`.
pub open spec fn dp_init_outcome(before: DpState, res: DisplayPortResolution, primary: Option<GpuInfoView>,
    xrandr: Option<Seq<char>>, r: Result<(), &'static str>, after: DpState) -> bool
{
    if before.initialized {
        r == Err::<(), &'static str>("DisplayPort driver already initialized") && after == before
    } else {
        match dp_gpu_outcome(primary, xrandr, before.gpu) {
            Err(e) => r == Err::<(), &'static str>(e) && after == before,
            Ok(gpu) => {
                let n = (res.width * res.height * 4) as usize;
                let s1 = dp_monitor_outcome(DpState { gpu, ..before }, xrandr);
                &&& r is Ok
                &&& after == (DpState {
                    initialized: true,
                    resolution: Some(res),
                    framebuffer: Some(Seq::new(n as nat, |i: int| 0u8)),
                    framebuffer_size: n,
                    ..s1
                })
            },
        }
    }
}

/// The state after a pixel write at (`x`, `y`).
pub open spec fn dp_pixel_outcome(before: DpState, x: u32, y: u32, r: u8, g: u8, b: u8, a: u8,
    res: Result<(), &'static str>, after: DpState) -> bool
{
    if !before.initialized {
        res == Err::<(), &'static str>("DisplayPort driver not initialized") && after == before
    } else {
        let rs = before.resolution.unwrap();
        if x >= rs.width || y >= rs.height {
            res == Err::<(), &'static str>("Coordinates out of bounds") && after == before
        } else {
            &&& res is Ok
            &&& after == (DpState {
                framebuffer: Some(with_pixel(before.framebuffer.unwrap(), pixel_offset(rs.width, x, y), r, g, b, a)),
                ..before
            })
        }
    }
}

/// Whether the display meets `req`, as the DisplayPort driver judges: its
/// own resolution, then the GPU as the HDMI check judges it (memory, with an
/// unknown amount refused where a minimum is set, and features).
pub open spec fn dp_meets(s: DpState, req: GamingRequirements) -> bool {
    match s.gpu {
        None => false,
        Some(g) => {
            &&& match s.resolution {
                Some(r) => r.refresh_rate >= req.min_refresh_rate && r.width >= req.min_width
                    && r.height >= req.min_height,
                None => true,
            }
            &&& match g.vram_mb {
                Some(v) => v >= req.min_vram_mb,
                None => req.min_vram_mb == 0,
            }
            &&& !(req.requires_vulkan && !g.supports_vulkan)
            &&& !(req.requires_opengl && !g.supports_opengl)
            &&& !(req.requires_raytracing && !g.supports_raytracing)
        },
    }
}

/// The view of an optional string slice.
pub open spec fn opt_str(o: Option<&str>) -> Option<Seq<char>> {
    match o {
        Some(s) => Some(s@),
        None => None,
    }
}

/// The view of an optional GPU description.
pub open spec fn opt_gpu(o: Option<GpuInfo>) -> Option<GpuInfoView> {
    match o {
        Some(g) => Some(g@),
        None => None,
    }
}

impl DisplayPortDriver {
    /// The driver's invariant.
    pub closed spec fn wf(&self) -> bool {
        dp_framebuffer_ok(self@)
    }

    /// Create a new DisplayPort driver instance
    pub fn new() -> (d: Self)
        ensures
            d.wf(),
            d@ == (DpState {
                initialized: false,
                resolution: None,
                color_format: DisplayPortColorFormat::RGB,
                framebuffer: None,
                framebuffer_size: 0,
                link_rate: DisplayPortLinkRate::HBR35_4,
                lane_count: DisplayPortLanes::Quad,
                adaptive_sync: false,
                mst: None,
                gpu: None,
            }),
    {
        DisplayPortDriver {
            initialized: false,
            current_resolution: None,
            color_format: DisplayPortColorFormat::RGB,
            framebuffer: None,
            framebuffer_size: 0,
            link_rate: DisplayPortLinkRate::HBR35_4,
            lane_count: DisplayPortLanes::Quad,
            adaptive_sync_enabled: false,
            mst_config: None,
            gpu_info: None,
        }
    }

    /// Initialize the DisplayPort driver at 2560x1440, 144 Hz. The HDMI
    /// driver's primary GPU and the `xrandr --prop` output, where there are
    /// any, describe the hardware.
    pub fn init(&mut self, primary_gpu: Option<GpuInfo>, xrandr: Option<&str>) -> (r: Result<(), &'static str>)
        requires
            old(self).wf(),
        ensures
            final(self).wf(),
            dp_init_outcome(old(self)@, HdmiResolution { width: 2560, height: 1440, refresh_rate: 144 },
                opt_gpu(primary_gpu), opt_str(xrandr), r, final(self)@),
    {
        self.init_with_resolution(HdmiResolution { width: 2560, height: 1440, refresh_rate: 144 }, primary_gpu, xrandr)
    }

    /// Initialize the DisplayPort driver with specific resolution
    pub fn init_with_resolution(&mut self, resolution: DisplayPortResolution, primary_gpu: Option<GpuInfo>,
        xrandr: Option<&str>) -> (r: Result<(), &'static str>)
        requires
            old(self).wf(),
            resolution.width * resolution.height * 4 <= usize::MAX,
        ensures
            final(self).wf(),
            dp_init_outcome(old(self)@, resolution, opt_gpu(primary_gpu), opt_str(xrandr), r, final(self)@),
    {
        if self.initialized {
            return Err("DisplayPort driver already initialized");
        }
        match self.detect_gpu(primary_gpu, xrandr) {
            Ok(()) => {},
            Err(e) => {
                return Err(e);
            },
        }
        match self.detect_monitor_capabilities(xrandr) {
            Ok(()) => {},
            Err(e) => {
                return Err(e);
            },
        }
        assert(resolution.width * resolution.height <= usize::MAX) by (nonlinear_arith)
            requires
                resolution.width * resolution.height * 4 <= usize::MAX,
        ;
        let fb_size = resolution.width as usize * resolution.height as usize * 4;
        let framebuffer = match self.allocate_framebuffer(fb_size) {
            Ok(fb) => fb,
            Err(e) => {
                return Err(e);
            },
        };
        self.framebuffer = Some(framebuffer);
        self.framebuffer_size = fb_size;
        self.current_resolution = Some(resolution);
        match self.setup_adaptive_sync() {
            Ok(()) => {},
            Err(e) => {
                return Err(e);
            },
        }
        self.initialized = true;
        Ok(())
    }

    /// A zero-filled framebuffer of `size` bytes.
    fn allocate_framebuffer(&self, size: usize) -> (r: Result<Vec<u8>, &'static str>)
        ensures
            r is Ok,
            r->Ok_0@ == Seq::new(size as nat, |i: int| 0u8),
    {
        Ok(zeroed(size))
    }

    /// Clear the screen to a specific color
    pub fn clear_screen(&mut self, r: u8, g: u8, b: u8) -> (res: Result<(), &'static str>)
        requires
            old(self).wf(),
        ensures
            final(self).wf(),
            !old(self)@.initialized ==> res == Err::<(), &'static str>("DisplayPort driver not initialized")
                && final(self)@ == old(self)@,
            old(self)@.initialized ==> res is Ok && final(self)@ == (DpState {
                framebuffer: Some(cleared(old(self)@.framebuffer_size as nat, r, g, b)),
                ..old(self)@
            }),
    {
        if !self.initialized {
            return Err("DisplayPort driver not initialized");
        }
        let mut fb = match self.framebuffer.take() {
            Some(fb) => fb,
            None => {
                return Err("Framebuffer not allocated");
            },
        };
        fill_rgb(&mut fb, r, g, b);
        self.framebuffer = Some(fb);
        Ok(())
    }

    /// Set a pixel at the specified coordinates
    pub fn set_pixel(&mut self, x: u32, y: u32, r: u8, g: u8, b: u8, a: u8) -> (res: Result<(), &'static str>)
        requires
            old(self).wf(),
            offset_fits(old(self)@.resolution, x, y),
        ensures
            final(self).wf(),
            dp_pixel_outcome(old(self)@, x, y, r, g, b, a, res, final(self)@),
    {
        if !self.initialized {
            return Err("DisplayPort driver not initialized");
        }
        let resolution = match self.current_resolution {
            Some(res) => res,
            None => {
                return Err("Resolution not set");
            },
        };
        if x >= resolution.width || y >= resolution.height {
            return Err("Coordinates out of bounds");
        }
        let mut fb = match self.framebuffer.take() {
            Some(fb) => fb,
            None => {
                return Err("Framebuffer not allocated");
            },
        };
        assert(y * resolution.width + x < resolution.width * resolution.height) by (nonlinear_arith)
            requires
                x < resolution.width,
                y < resolution.height,
        ;
        let offset = ((y * resolution.width + x) * 4) as usize;
        put_pixel(&mut fb, offset, r, g, b, a);
        self.framebuffer = Some(fb);
        Ok(())
    }

    /// Flush changes to the screen. The frame is already in the
    /// framebuffer; only the state is checked.
    pub fn flush(&self) -> (r: Result<(), &'static str>)
        requires
            self.wf(),
        ensures
            !self@.initialized ==> r == Err::<(), &'static str>("DisplayPort driver not initialized"),
            self@.initialized ==> r is Ok,
    {
        if !self.initialized {
            return Err("DisplayPort driver not initialized");
        }
        match &self.framebuffer {
            Some(_) => Ok(()),
            None => Err("Framebuffer not allocated"),
        }
    }

    /// Settles which GPU drives the output.
    fn detect_gpu(&mut self, primary_gpu: Option<GpuInfo>, xrandr: Option<&str>) -> (r: Result<(), &'static str>)
        requires
            old(self).wf(),
        ensures
            final(self).wf(),
            match dp_gpu_outcome(opt_gpu(primary_gpu), opt_str(xrandr), old(self)@.gpu) {
                Err(e) => r == Err::<(), &'static str>(e) && final(self)@ == old(self)@,
                Ok(g) => r is Ok && final(self)@ == (DpState { gpu: g, ..old(self)@ }),
            },
    {
        match primary_gpu {
            Some(gpu) => {
                self.gpu_info = Some(gpu);
                return Ok(());
            },
            None => {},
        }
        match xrandr {
            Some(output) => {
                let oc = chars_of(output);
                let has_dp = contains_str(&oc, "DisplayPort") || contains_str(&oc, "DP-");
                if !has_dp {
                    return Err("No DisplayPort connections detected");
                }
                self.gpu_info = Some(GpuInfo {
                    vendor: GpuVendor::Unknown,
                    model: string_from_str("Unknown DisplayPort GPU"),
                    vram_mb: None,
                    driver_version: None,
                    supports_vulkan: false,
                    supports_opengl: true,
                    max_resolution: Some(HdmiResolution { width: 3840, height: 2160, refresh_rate: 60 }),
                    supports_hdr: false,
                    supports_variable_refresh: false,
                    supports_raytracing: false,
                });
            },
            None => {},
        }
        Ok(())
    }

    /// Reads the monitor's capabilities from the `xrandr --prop` output.
    fn detect_monitor_capabilities(&mut self, xrandr: Option<&str>) -> (r: Result<(), &'static str>)
        requires
            old(self).wf(),
        ensures
            final(self).wf(),
            r is Ok,
            final(self)@ == dp_monitor_outcome(old(self)@, opt_str(xrandr)),
    {
        match xrandr {
            Some(output) => {
                let oc = chars_of(output);
                if contains_str(&oc, "FreeSync") || contains_str(&oc, "adaptive-sync") {
                    self.adaptive_sync_enabled = true;
                    if contains_str(&oc, "DP-1.4") || contains_str(&oc, "DisplayPort 1.4") {
                        self.link_rate = DisplayPortLinkRate::HBR48_1;
                    } else if contains_str(&oc, "DP-1.3") || contains_str(&oc, "DisplayPort 1.3") {
                        self.link_rate = DisplayPortLinkRate::HBR35_4;
                    } else if contains_str(&oc, "DP-1.2") || contains_str(&oc, "DisplayPort 1.2") {
                        self.link_rate = DisplayPortLinkRate::HBR35_4;
                    } else {
                        self.link_rate = DisplayPortLinkRate::HBR2_7;
                    }
                    if contains_str(&oc, "MST") {
                        self.mst_config = Some(MstConfig { enabled: true, max_streams: 4, topology_id: None });
                    }
                }
            },
            None => {},
        }
        Ok(())
    }

    /// Adaptive sync needs no further setting up here; the GPU's own
    /// technology is chosen by its vendor.
    fn setup_adaptive_sync(&mut self) -> (r: Result<(), &'static str>)
        ensures
            r is Ok,
            final(self)@ == old(self)@,
    {
        Ok(())
    }

    /// Configure Multi-Stream Transport (MST)
    pub fn configure_mst(&mut self, enable: bool, max_streams: u8) -> (r: Result<(), &'static str>)
        requires
            old(self).wf(),
        ensures
            final(self).wf(),
            !old(self)@.initialized ==> r == Err::<(), &'static str>("DisplayPort driver not initialized")
                && final(self)@ == old(self)@,
            old(self)@.initialized ==> r is Ok && final(self)@ == (DpState {
                mst: if enable { Some(MstConfig { enabled: true, max_streams, topology_id: Some(0) }) } else { None },
                ..old(self)@
            }),
    {
        if !self.initialized {
            return Err("DisplayPort driver not initialized");
        }
        if enable {
            self.mst_config = Some(MstConfig { enabled: true, max_streams, topology_id: Some(0) });
        } else {
            self.mst_config = None;
        }
        Ok(())
    }

    /// Get current resolution
    pub fn resolution(&self) -> (r: Option<DisplayPortResolution>)
        ensures
            r == self@.resolution,
    {
        self.current_resolution
    }

    /// Check if the monitor meets gaming requirements
    pub fn meets_gaming_requirements(&self, requirements: &GamingRequirements) -> (r: bool)
        ensures
            r == dp_meets(self@, *requirements),
    {
        match &self.gpu_info {
            Some(gpu) => {
                match self.current_resolution {
                    Some(resolution) => {
                        if resolution.refresh_rate < requirements.min_refresh_rate {
                            return false;
                        }
                        if resolution.width < requirements.min_width || resolution.height < requirements.min_height {
                            return false;
                        }
                    },
                    None => {},
                }
                match gpu.vram_mb {
                    Some(vram) => {
                        if vram < requirements.min_vram_mb {
                            return false;
                        }
                    },
                    None => {
                        if requirements.min_vram_mb > 0 {
                            return false;
                        }
                    },
                }
                if requirements.requires_vulkan && !gpu.supports_vulkan {
                    return false;
                }
                if requirements.requires_opengl && !gpu.supports_opengl {
                    return false;
                }
                if requirements.requires_raytracing && !gpu.supports_raytracing {
                    return false;
                }
                true
            },
            None => false,
        }
    }

    /// Check if adaptive sync is enabled
    pub fn is_adaptive_sync_enabled(&self) -> (r: bool)
        ensures
            r == self@.adaptive_sync,
    {
        self.adaptive_sync_enabled
    }

    /// Set adaptive sync state
    pub fn set_adaptive_sync(&mut self, enabled: bool) -> (r: Result<(), &'static str>)
        requires
            old(self).wf(),
        ensures
            final(self).wf(),
            !old(self)@.initialized ==> r == Err::<(), &'static str>("DisplayPort driver not initialized")
                && final(self)@ == old(self)@,
            old(self)@.initialized ==> r is Ok && final(self)@ == (DpState { adaptive_sync: enabled, ..old(self)@ }),
    {
        if !self.initialized {
            return Err("DisplayPort driver not initialized");
        }
        if self.adaptive_sync_enabled == enabled {
            return Ok(());
        }
        self.adaptive_sync_enabled = enabled;
        Ok(())
    }
}

pub fn init(driver: &mut DisplayPortDriver, primary_gpu: Option<GpuInfo>, xrandr: Option<&str>) -> (r: Result<(), &'static str>)
    requires
        old(driver).wf(),
    ensures
        final(driver).wf(),
        dp_init_outcome(old(driver)@, HdmiResolution { width: 2560, height: 1440, refresh_rate: 144 },
            opt_gpu(primary_gpu), opt_str(xrandr), r, final(driver)@),
{
    driver.init(primary_gpu, xrandr)
}

pub fn init_with_resolution(driver: &mut DisplayPortDriver, resolution: DisplayPortResolution,
    primary_gpu: Option<GpuInfo>, xrandr: Option<&str>) -> (r: Result<(), &'static str>)
    requires
        old(driver).wf(),
        resolution.width * resolution.height * 4 <= usize::MAX,
    ensures
        final(driver).wf(),
        dp_init_outcome(old(driver)@, resolution, opt_gpu(primary_gpu), opt_str(xrandr), r, final(driver)@),
{
    driver.init_with_resolution(resolution, primary_gpu, xrandr)
}

pub fn clear_screen(driver: &mut DisplayPortDriver, r: u8, g: u8, b: u8) -> (res: Result<(), &'static str>)
    requires
        old(driver).wf(),
    ensures
        final(driver).wf(),
        !old(driver)@.initialized ==> res == Err::<(), &'static str>("DisplayPort driver not initialized")
            && final(driver)@ == old(driver)@,
        old(driver)@.initialized ==> res is Ok && final(driver)@ == (DpState {
            framebuffer: Some(cleared(old(driver)@.framebuffer_size as nat, r, g, b)),
            ..old(driver)@
        }),
{
    driver.clear_screen(r, g, b)
}

pub fn set_pixel(driver: &mut DisplayPortDriver, x: u32, y: u32, r: u8, g: u8, b: u8, a: u8) -> (res: Result<(), &'static str>)
    requires
        old(driver).wf(),
        offset_fits(old(driver)@.resolution, x, y),
    ensures
        final(driver).wf(),
        dp_pixel_outcome(old(driver)@, x, y, r, g, b, a, res, final(driver)@),
{
    driver.set_pixel(x, y, r, g, b, a)
}

pub fn flush(driver: &DisplayPortDriver) -> (r: Result<(), &'static str>)
    requires
        driver.wf(),
    ensures
        !driver@.initialized ==> r == Err::<(), &'static str>("DisplayPort driver not initialized"),
        driver@.initialized ==> r is Ok,
{
    driver.flush()
}

pub fn enable_adaptive_sync(driver: &mut DisplayPortDriver, enabled: bool) -> (r: Result<(), &'static str>)
    requires
        old(driver).wf(),
    ensures
        final(driver).wf(),
        !old(driver)@.initialized ==> r == Err::<(), &'static str>("DisplayPort driver not initialized")
            && final(driver)@ == old(driver)@,
        old(driver)@.initialized ==> r is Ok && final(driver)@ == (DpState { adaptive_sync: enabled, ..old(driver)@ }),
{
    driver.set_adaptive_sync(enabled)
}

pub fn is_adaptive_sync_enabled(driver: &DisplayPortDriver) -> (r: bool)
    ensures
        r == driver@.adaptive_sync,
{
    driver.is_adaptive_sync_enabled()
}

pub fn configure_mst(driver: &mut DisplayPortDriver, enable: bool, max_streams: u8) -> (r: Result<(), &'static str>)
    requires
        old(driver).wf(),
    ensures
        final(driver).wf(),
        !old(driver)@.initialized ==> r == Err::<(), &'static str>("DisplayPort driver not initialized")
            && final(driver)@ == old(driver)@,
        old(driver)@.initialized ==> r is Ok && final(driver)@ == (DpState {
            mst: if enable { Some(MstConfig { enabled: true, max_streams, topology_id: Some(0) }) } else { None },
            ..old(driver)@
        }),
{
    driver.configure_mst(enable, max_streams)
}

pub fn meets_gaming_requirements(driver: &DisplayPortDriver, requirements: &GamingRequirements) -> (r: bool)
    ensures
        r == dp_meets(driver@, *requirements),
{
    driver.meets_gaming_requirements(requirements)
}

} // verus!
