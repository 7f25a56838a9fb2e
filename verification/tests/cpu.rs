use os_gaming::kernel::cpu::features::{
    feature_supported, has_feature, required_features_in, supported_features_in, CpuFeature, FeatureProbe,
};
use os_gaming::kernel::cpu::identification::{cpu_info_from, family_from, detect_cpu, get_cpu_info, CpuInfoCache, CpuidReading, Leaf1Reading};
use os_gaming::kernel::cpu::performance::{start_monitoring, stop_monitoring, PerfCounterConfig};
use os_gaming::kernel::cpu::power::{
    get_max_frequency, power_feature_supported, profile_msr_writes, MsrWrite, PerformanceProfile, PowerProbe,
    CpuFeature as PowerFeature,
};

fn probe(sse2: bool, avx: bool, cx8: bool) -> FeatureProbe {
    FeatureProbe {
        sse: true,
        sse2,
        sse3: false,
        ssse3: false,
        sse41: false,
        sse42: false,
        avx,
        avx2: true,
        popcnt: false,
        cmpxchg8b: cx8,
        cmpxchg16b: false,
    }
}

#[test]
fn features_follow_the_probe() {
    let p = probe(true, true, true);
    assert!(feature_supported(&p, CpuFeature::AVX2));
    assert!(!feature_supported(&p, CpuFeature::AVX512F));
    assert!(required_features_in(&p));
    assert!(!required_features_in(&probe(true, false, true)));
    assert_eq!(
        supported_features_in(&p),
        vec![CpuFeature::SSE, CpuFeature::SSE2, CpuFeature::AVX, CpuFeature::AVX2, CpuFeature::CMPXCHG8B]
    );
    // never probed on any machine
    assert!(!has_feature(CpuFeature::MSR));
}

#[test]
fn identification_defaults_and_caching() {
    let reading = CpuidReading { vendor: None, brand: Some("Test CPU".to_string()), leaf1: None };
    let info = cpu_info_from(&reading);
    assert_eq!(info.vendor_id, "Unknown");
    assert_eq!(info.brand_string, "Test CPU");
    assert_eq!((info.family, info.model, info.stepping), (0, 0, 0));
    let reading = CpuidReading {
        vendor: Some("GenuineIntel".to_string()),
        brand: None,
        leaf1: Some(Leaf1Reading {
            sse: true,
            sse2: false,
            hypervisor: true,
            base_family: 6,
            extended_family: 3,
            model: 158,
            stepping: 10,
        }),
    };
    let info = cpu_info_from(&reading);
    assert_eq!(info.brand_string, "Unknown Processor");
    assert_eq!((info.family, info.model, info.stepping), (6, 158, 10));
    assert!(info.features.sse && info.features.hypervisor && !info.features.avx);
    let mut cache = CpuInfoCache::new();
    assert!(get_cpu_info(&cache).is_none());
    let a = detect_cpu(&mut cache);
    let b = detect_cpu(&mut cache);
    assert_eq!(a.vendor_id, b.vendor_id);
    assert_eq!(get_cpu_info(&cache).unwrap().brand_string, a.brand_string);
}

#[test]
fn max_frequency_follows_the_vendor() {
    let mut cache = CpuInfoCache::new();
    assert_eq!(get_max_frequency(&cache), 3_000_000_000);
    let reading = CpuidReading { vendor: Some("AuthenticAMD".to_string()), brand: None, leaf1: None };
    cache.info = Some(cpu_info_from(&reading));
    assert_eq!(get_max_frequency(&cache), 3_800_000_000);
}

#[test]
fn profiles_become_register_writes() {
    let p = PerformanceProfile { min_frequency: 1_800_000_000, max_frequency: 3_600_000_000, turbo_enabled: true, power_limit: 0 };
    let intel = "GenuineIntel".to_string();
    let w = profile_msr_writes(&p, Some(&intel), true, 0).unwrap();
    assert_eq!(w, vec![MsrWrite { msr: 0x770, value: 1 }, MsrWrite { msr: 0x774, value: 18 | (36 << 8) | (0xFF << 16) }]);
    let w = profile_msr_writes(&p, Some(&intel), false, 0).unwrap();
    assert_eq!(w, vec![MsrWrite { msr: 0x199, value: 36 << 8 }]);
    let limited = PerformanceProfile { power_limit: 65, ..p };
    let w = profile_msr_writes(&limited, Some(&intel), false, 3).unwrap();
    assert_eq!(w[1], MsrWrite { msr: 0x610, value: (65 * 8) | (6 << 17) | (1 << 15) });
    let amd = "AuthenticAMD".to_string();
    let w = profile_msr_writes(&PerformanceProfile { turbo_enabled: false, ..p }, Some(&amd), true, 0).unwrap();
    assert_eq!(w, vec![MsrWrite { msr: 0xC0010061, value: 1 }, MsrWrite { msr: 0xC0010062, value: 1 }]);
    let other = "CentaurHauls".to_string();
    assert_eq!(profile_msr_writes(&p, Some(&other), true, 0).unwrap_err(), "Unsupported CPU vendor for performance control");
    assert!(profile_msr_writes(&p, None, true, 0).is_err());
}

#[test]
fn power_features_fall_back_to_amd_flags() {
    let p = PowerProbe { thermal: None, vendor: Some("AuthenticAMD".to_string()), extended: Some((false, true)) };
    assert!(power_feature_supported(&p, PowerFeature::TurboBoost));
    assert!(!power_feature_supported(&p, PowerFeature::HWP));
    let q = PowerProbe { thermal: Some((true, false, true)), vendor: None, extended: None };
    assert!(power_feature_supported(&q, PowerFeature::HWP));
    assert!(!power_feature_supported(&q, PowerFeature::TurboBoost));
    assert!(power_feature_supported(&q, PowerFeature::PowerLimit));
}

#[test]
fn counters_are_programmed_then_cleared() {
    let c = PerfCounterConfig {
        event: 0x01C0,
        user_mode: true,
        os_mode: false,
        edge_detect: true,
        pin_control: false,
        apic_interrupt: false,
        enable: true,
    };
    assert_eq!(c.to_value(), 0xC0 | (0x01 << 8) | (1 << 16) | (1 << 18) | (1 << 22));
    let w = start_monitoring();
    assert_eq!(w.len(), 4);
    assert_eq!(w[0], MsrWrite { msr: 0x186, value: 0xC0 | (1 << 16) | (1 << 17) | (1 << 22) });
    assert_eq!(w[3], MsrWrite { msr: 0xC2, value: 0 });
    assert_eq!(stop_monitoring(), vec![MsrWrite { msr: 0x186, value: 0 }, MsrWrite { msr: 0x187, value: 0 }]);
}

#[test]
fn family_uses_extended_field_where_the_vendor_says() {
    assert_eq!(family_from(6, 3, Some("GenuineIntel")), 6);
    assert_eq!(family_from(0xF, 1, Some("GenuineIntel")), 0x10);
    assert_eq!(family_from(0xF, 8, Some("AuthenticAMD")), 0x17);
    assert_eq!(family_from(0xE, 8, Some("AuthenticAMD")), 0xE);
    assert_eq!(family_from(5, 2, None), 7);
    assert_eq!(family_from(0xF, 0xF1, Some("KVMKVMKVM")), 0);
}
