//! CPU identification: vendor, brand, family, model, stepping and a few
//! feature flags, read from CPUID once and kept.

use vstd::prelude::*;
use super::cpuid;
use crate::text::{string_from_str, copy_string, str_equal};

verus! {

/// Feature flags kept with the CPU information.
#[derive(Debug, Clone, Copy, PartialEq, Eq, Structural)]
pub struct CpuFeatures {
    pub sse: bool,
    pub sse2: bool,
    pub avx: bool,
    pub avx2: bool,
    pub hypervisor: bool,
}

impl Default for CpuFeatures {
    fn default() -> (f: Self)
        ensures
            f == (CpuFeatures { sse: false, sse2: false, avx: false, avx2: false, hypervisor: false }),
    {
        CpuFeatures { sse: false, sse2: false, avx: false, avx2: false, hypervisor: false }
    }
}

/// CPU information
#[derive(Debug)]
pub struct CpuInfo {
    pub vendor_id: String,
    pub brand_string: String,
    pub family: u8,
    pub model: u8,
    pub stepping: u8,
    pub features: CpuFeatures,
}

/// Two CPU informations hold the same values.
pub open spec fn same_info(a: CpuInfo, b: CpuInfo) -> bool {
    &&& a.vendor_id@ == b.vendor_id@
    &&& a.brand_string@ == b.brand_string@
    &&& a.family == b.family && a.model == b.model && a.stepping == b.stepping
    &&& a.features == b.features
}

impl Default for CpuInfo {
    /// Nothing known: empty strings, zeros, no features.
    fn default() -> (i: Self)
        ensures
            i.vendor_id@ == Seq::<char>::empty(),
            i.brand_string@ == Seq::<char>::empty(),
            i.family == 0 && i.model == 0 && i.stepping == 0,
            i.features == (CpuFeatures { sse: false, sse2: false, avx: false, avx2: false, hypervisor: false }),
    {
        CpuInfo {
            vendor_id: String::new(),
            brand_string: String::new(),
            family: 0,
            model: 0,
            stepping: 0,
            features: CpuFeatures::default(),
        }
    }
}

impl Clone for CpuInfo {
    fn clone(&self) -> (c: Self)
        ensures
            same_info(c, *self),
    {
        CpuInfo {
            vendor_id: copy_string(&self.vendor_id),
            brand_string: copy_string(&self.brand_string),
            family: self.family,
            model: self.model,
            stepping: self.stepping,
            features: self.features,
        }
    }
}

/// What leaf 1 of CPUID reports.
#[derive(Debug, Clone, Copy)]
pub struct Leaf1Reading {
    pub sse: bool,
    pub sse2: bool,
    pub hypervisor: bool,
    /// The base family field (bits 8 to 11).
    pub base_family: u8,
    /// The extended family field (bits 20 to 27).
    pub extended_family: u8,
    pub model: u8,
    pub stepping: u8,
}

/// What CPUID reports for identification, each part absent where the
/// processor lacks its leaf.
#[derive(Debug)]
pub struct CpuidReading {
    pub vendor: Option<String>,
    pub brand: Option<String>,
    pub leaf1: Option<Leaf1Reading>,
}

/// Reads the vendor, brand and leaf 1 from CPUID.
pub fn read_cpuid() -> CpuidReading {
    let vendor = match cpuid::vendor_info() {
        Some(v) => Some(cpuid::vendor_text(&v)),
        None => None,
    };
    let brand = match cpuid::brand_string() {
        Some(b) => Some(cpuid::brand_text(&b)),
        None => None,
    };
    let leaf1 = match cpuid::feature_info() {
        Some(f) => Some(
            Leaf1Reading {
                sse: cpuid::has_sse(&f),
                sse2: cpuid::has_sse2(&f),
                hypervisor: cpuid::has_hypervisor(&f),
                base_family: cpuid::base_family_id(&f),
                extended_family: cpuid::extended_family_id(&f),
                model: cpuid::model_id(&f),
                stepping: cpuid::stepping_id(&f),
            },
        ),
        None => None,
    };
    CpuidReading { vendor, brand, leaf1 }
}

/// The processor family: the base family alone on an AMD (or Hygon)
/// processor below base family 0xF and on an Intel processor other than
/// base family 0xF; otherwise base plus extended family, kept to 8 bits
/// (wrapping where the sum passes 255).
pub open spec fn cpu_family(base: u8, extended: u8, vendor: Option<Seq<char>>) -> u8 {
    let amd = vendor == Some("AuthenticAMD"@) || vendor == Some("HygonGenuine"@);
    let intel = vendor == Some("GenuineIntel"@);
    if (amd && base < 0xF) || (intel && base != 0xF) {
        base
    } else {
        ((base + extended) % 256) as u8
    }
}

/// The view of an optional string.
pub open spec fn opt_view(o: Option<String>) -> Option<Seq<char>> {
    match o {
        Some(s) => Some(s@),
        None => None,
    }
}

/// The processor family, as `cpu_family` says.
pub fn family_from(base: u8, extended: u8, vendor: Option<&str>) -> (f: u8)
    ensures
        f == cpu_family(base, extended, match vendor {
            Some(v) => Some(v@),
            None => None,
        }),
{
    let (amd, intel) = match vendor {
        Some(v) => (str_equal(v, "AuthenticAMD") || str_equal(v, "HygonGenuine"), str_equal(v, "GenuineIntel")),
        None => (false, false),
    };
    if (amd && base < 0xF) || (intel && base != 0xF) {
        base
    } else {
        base.wrapping_add(extended)
    }
}

/// The information a reading gives: "Unknown" and "Unknown Processor" for
/// a missing vendor and brand, zeros and no features for a missing leaf 1;
/// AVX and AVX2 are not read.
pub open spec fn info_from(r: CpuidReading, i: CpuInfo) -> bool {
    &&& i.vendor_id@ == match r.vendor {
        Some(v) => v@,
        None => "Unknown"@,
    }
    &&& i.brand_string@ == match r.brand {
        Some(b) => b@,
        None => "Unknown Processor"@,
    }
    &&& match r.leaf1 {
        Some(l) => i.family == cpu_family(l.base_family, l.extended_family, opt_view(r.vendor)) && i.model == l.model && i.stepping == l.stepping && i.features == (
        CpuFeatures { sse: l.sse, sse2: l.sse2, avx: false, avx2: false, hypervisor: l.hypervisor }),
        None => i.family == 0 && i.model == 0 && i.stepping == 0 && i.features == (CpuFeatures {
            sse: false,
            sse2: false,
            avx: false,
            avx2: false,
            hypervisor: false,
        }),
    }
}

/// The CPU information a reading gives, as `info_from` says.
pub fn cpu_info_from(reading: &CpuidReading) -> (i: CpuInfo)
    ensures
        info_from(*reading, i),
{
    proof {
        reveal_strlit("Unknown");
        reveal_strlit("Unknown Processor");
    }
    let vendor_id = match &reading.vendor {
        Some(v) => copy_string(v),
        None => string_from_str("Unknown"),
    };
    let brand_string = match &reading.brand {
        Some(b) => copy_string(b),
        None => string_from_str("Unknown Processor"),
    };
    let (features, family, model, stepping) = match reading.leaf1 {
        Some(l) => (
            CpuFeatures { sse: l.sse, sse2: l.sse2, hypervisor: l.hypervisor, avx: false, avx2: false },
            family_from(
                l.base_family,
                l.extended_family,
                match &reading.vendor {
                    Some(v) => Some(v.as_str()),
                    None => None,
                },
            ),
            l.model,
            l.stepping,
        ),
        None => (CpuFeatures::default(), 0u8, 0u8, 0u8),
    };
    CpuInfo { vendor_id, brand_string, family, model, stepping, features }
}

/// The CPU information, once read.
pub struct CpuInfoCache {
    pub info: Option<CpuInfo>,
}

impl CpuInfoCache {
    /// Nothing read yet.
    pub fn new() -> (c: Self)
        ensures
            c.info is None,
    {
        CpuInfoCache { info: None }
    }
}

/// Reads the CPU information from CPUID, unless it was read before.
pub fn initialize(cache: &mut CpuInfoCache)
    ensures
        final(cache).info is Some,
        old(cache).info is Some ==> *final(cache) == *old(cache),
        old(cache).info is None ==> exists|r: CpuidReading| #[trigger] info_from(r, final(cache).info.unwrap()),
{
    if cache.info.is_none() {
        let reading = read_cpuid();
        cache.info = Some(cpu_info_from(&reading));
        assert(info_from(reading, cache.info.unwrap()));
    }
}

/// The CPU information, if it was read.
pub fn get_cpu_info(cache: &CpuInfoCache) -> (r: Option<CpuInfo>)
    ensures
        r is Some <==> cache.info is Some,
        r matches Some(i) ==> same_info(i, cache.info.unwrap()),
{
    match &cache.info {
        Some(i) => Some(i.clone()),
        None => None,
    }
}

/// Reads the CPU information if needed and returns it.
pub fn detect_cpu(cache: &mut CpuInfoCache) -> (i: CpuInfo)
    ensures
        final(cache).info is Some,
        same_info(i, final(cache).info.unwrap()),
        old(cache).info is Some ==> *final(cache) == *old(cache),
{
    initialize(cache);
    match get_cpu_info(cache) {
        Some(i) => i,
        None => CpuInfo::default(),
    }
}

} // verus!
