//! CPU features and capabilities, as CPUID reports them.

use vstd::prelude::*;
use super::cpuid;

verus! {

/// CPU features that benefit gaming performance
#[derive(Debug, Clone, Copy, PartialEq, Eq, Structural)]
pub enum CpuFeature {
    SSE,
    SSE2,
    SSE3,
    SSSE3,
    SSE4_1,
    SSE4_2,
    AVX,
    AVX2,
    AVX512F,
    BMI1,
    BMI2,
    POPCNT,
    CMPXCHG8B,
    CMPXCHG16B,
    RDTSC,
    AES,
    PCLMULQDQ,
    XSAVE,
    OSXSAVE,
    F16C,
    FMA,
    MMX,
    FXSR,
    TSC,
    MSR,
}

/// The feature flags CPUID reported, each false where its leaf is missing.
#[derive(Debug, Clone, Copy)]
pub struct FeatureProbe {
    pub sse: bool,
    pub sse2: bool,
    pub sse3: bool,
    pub ssse3: bool,
    pub sse41: bool,
    pub sse42: bool,
    pub avx: bool,
    pub avx2: bool,
    pub popcnt: bool,
    pub cmpxchg8b: bool,
    pub cmpxchg16b: bool,
}

/// Whether the probe reports the feature: the eleven features CPUID is
/// asked about follow their flag, every other feature counts as absent.
pub open spec fn feature_in(p: FeatureProbe, f: CpuFeature) -> bool {
    match f {
        CpuFeature::SSE => p.sse,
        CpuFeature::SSE2 => p.sse2,
        CpuFeature::SSE3 => p.sse3,
        CpuFeature::SSSE3 => p.ssse3,
        CpuFeature::SSE4_1 => p.sse41,
        CpuFeature::SSE4_2 => p.sse42,
        CpuFeature::AVX => p.avx,
        CpuFeature::AVX2 => p.avx2,
        CpuFeature::POPCNT => p.popcnt,
        CpuFeature::CMPXCHG8B => p.cmpxchg8b,
        CpuFeature::CMPXCHG16B => p.cmpxchg16b,
        _ => false,
    }
}

/// The features OS Gaming requires: SSE2, AVX and CMPXCHG8B.
pub open spec fn required_features() -> Seq<CpuFeature> {
    seq![CpuFeature::SSE2, CpuFeature::AVX, CpuFeature::CMPXCHG8B]
}

/// The probe reports every required feature.
pub open spec fn required_in(p: FeatureProbe) -> bool {
    forall|i: int| 0 <= i < required_features().len() ==> feature_in(p, #[trigger] required_features()[i])
}

/// The features the probe reports.
pub open spec fn reported_by(p: FeatureProbe) -> spec_fn(CpuFeature) -> bool {
    |f: CpuFeature| feature_in(p, f)
}

/// The features the probe reports, in declaration order.
pub open spec fn supported_in(p: FeatureProbe) -> Seq<CpuFeature> {
    all_features().filter(reported_by(p))
}

/// Every feature, in declaration order.
pub open spec fn all_features() -> Seq<CpuFeature> {
    seq![
        CpuFeature::SSE, CpuFeature::SSE2, CpuFeature::SSE3, CpuFeature::SSSE3, CpuFeature::SSE4_1,
        CpuFeature::SSE4_2, CpuFeature::AVX, CpuFeature::AVX2, CpuFeature::AVX512F, CpuFeature::BMI1,
        CpuFeature::BMI2, CpuFeature::POPCNT, CpuFeature::CMPXCHG8B, CpuFeature::CMPXCHG16B, CpuFeature::RDTSC,
        CpuFeature::AES, CpuFeature::PCLMULQDQ, CpuFeature::XSAVE, CpuFeature::OSXSAVE, CpuFeature::F16C,
        CpuFeature::FMA, CpuFeature::MMX, CpuFeature::FXSR, CpuFeature::TSC, CpuFeature::MSR,
    ]
}

fn all_features_vec() -> (v: Vec<CpuFeature>)
    ensures
        v@ == all_features(),
{
    let v = vec![
        CpuFeature::SSE, CpuFeature::SSE2, CpuFeature::SSE3, CpuFeature::SSSE3, CpuFeature::SSE4_1,
        CpuFeature::SSE4_2, CpuFeature::AVX, CpuFeature::AVX2, CpuFeature::AVX512F, CpuFeature::BMI1,
        CpuFeature::BMI2, CpuFeature::POPCNT, CpuFeature::CMPXCHG8B, CpuFeature::CMPXCHG16B, CpuFeature::RDTSC,
        CpuFeature::AES, CpuFeature::PCLMULQDQ, CpuFeature::XSAVE, CpuFeature::OSXSAVE, CpuFeature::F16C,
        CpuFeature::FMA, CpuFeature::MMX, CpuFeature::FXSR, CpuFeature::TSC, CpuFeature::MSR,
    ];
    assert(v@ =~= all_features());
    v
}

/// Reads the feature flags from CPUID: leaf 1 for all but AVX2, leaf 7 for
/// AVX2.
pub fn probe_features() -> FeatureProbe {
    let mut p = FeatureProbe {
        sse: false,
        sse2: false,
        sse3: false,
        ssse3: false,
        sse41: false,
        sse42: false,
        avx: false,
        avx2: false,
        popcnt: false,
        cmpxchg8b: false,
        cmpxchg16b: false,
    };
    match cpuid::feature_info() {
        Some(f) => {
            p.sse = cpuid::has_sse(&f);
            p.sse2 = cpuid::has_sse2(&f);
            p.sse3 = cpuid::has_sse3(&f);
            p.ssse3 = cpuid::has_ssse3(&f);
            p.sse41 = cpuid::has_sse41(&f);
            p.sse42 = cpuid::has_sse42(&f);
            p.avx = cpuid::has_avx(&f);
            p.popcnt = cpuid::has_popcnt(&f);
            p.cmpxchg8b = cpuid::has_cmpxchg8b(&f);
            p.cmpxchg16b = cpuid::has_cmpxchg16b(&f);
        },
        None => {},
    }
    match cpuid::extended_feature_info() {
        Some(e) => {
            p.avx2 = cpuid::has_avx2(&e);
        },
        None => {},
    }
    p
}

/// Whether the probe reports the feature.
pub fn feature_supported(probe: &FeatureProbe, feature: CpuFeature) -> (b: bool)
    ensures
        b == feature_in(*probe, feature),
{
    match feature {
        CpuFeature::SSE => probe.sse,
        CpuFeature::SSE2 => probe.sse2,
        CpuFeature::SSE3 => probe.sse3,
        CpuFeature::SSSE3 => probe.ssse3,
        CpuFeature::SSE4_1 => probe.sse41,
        CpuFeature::SSE4_2 => probe.sse42,
        CpuFeature::AVX => probe.avx,
        CpuFeature::AVX2 => probe.avx2,
        CpuFeature::POPCNT => probe.popcnt,
        CpuFeature::CMPXCHG8B => probe.cmpxchg8b,
        CpuFeature::CMPXCHG16B => probe.cmpxchg16b,
        _ => false,
    }
}

/// Check if CPU has a specific feature. Only the eleven features CPUID is
/// asked about can be reported.
pub fn has_feature(feature: CpuFeature) -> (b: bool)
    ensures
        exists|p: FeatureProbe| b == #[trigger] feature_in(p, feature),
{
    let p = probe_features();
    feature_supported(&p, feature)
}

/// Whether the probe reports every required feature.
pub fn required_features_in(probe: &FeatureProbe) -> (b: bool)
    ensures
        b == required_in(*probe),
{
    let required = vec![CpuFeature::SSE2, CpuFeature::AVX, CpuFeature::CMPXCHG8B];
    assert(required@ =~= required_features());
    let mut k: usize = 0;
    while k < required.len()
        invariant
            0 <= k <= required@.len(),
            required@ == required_features(),
            forall|i: int| 0 <= i < k ==> feature_in(*probe, #[trigger] required_features()[i]),
        decreases required@.len() - k,
    {
        if !feature_supported(probe, required[k]) {
            return false;
        }
        k += 1;
    }
    true
}

/// Check if CPU has all required features
pub fn has_required_features() -> (b: bool)
    ensures
        exists|p: FeatureProbe| b == #[trigger] required_in(p),
{
    let p = probe_features();
    required_features_in(&p)
}

/// Optimize CPU caches for gaming workloads: tuning them needs
/// model-specific registers, so nothing is done.
pub fn optimize_cache_for_gaming() {
}

/// The features the probe reports, in declaration order.
pub fn supported_features_in(probe: &FeatureProbe) -> (v: Vec<CpuFeature>)
    ensures
        v@ == supported_in(*probe),
{
    let all = all_features_vec();
    let mut v: Vec<CpuFeature> = Vec::new();
    let mut k: usize = 0;
    while k < all.len()
        invariant
            0 <= k <= all@.len(),
            all@ == all_features(),
            v@ == all_features().take(k as int).filter(reported_by(*probe)),
        decreases all@.len() - k,
    {
        let ghost t = all_features().take(k + 1);
        proof {
            reveal(Seq::filter);
        }
        assert(t.len() == k + 1);
        assert(t.drop_last() =~= all_features().take(k as int));
        assert(t.last() == all@[k as int]);
        assert(t.filter(reported_by(*probe)) == if reported_by(*probe)(t.last()) {
            t.drop_last().filter(reported_by(*probe)).push(t.last())
        } else {
            t.drop_last().filter(reported_by(*probe))
        });
        if feature_supported(probe, all[k]) {
            v.push(all[k]);
        }
        k += 1;
    }
    assert(all_features().take(k as int) =~= all_features());
    v
}

/// Get the set of all supported features
pub fn get_supported_features() -> (v: Vec<CpuFeature>)
    ensures
        exists|p: FeatureProbe| v@ == #[trigger] supported_in(p),
{
    let p = probe_features();
    supported_features_in(&p)
}


/// Every feature is among `all_features`.
proof fn lemma_listed(f: CpuFeature)
    ensures
        all_features().contains(f),
{
    match f {
        CpuFeature::SSE => {
            assert(all_features()[0] == f);
        },
        CpuFeature::SSE2 => {
            assert(all_features()[1] == f);
        },
        CpuFeature::SSE3 => {
            assert(all_features()[2] == f);
        },
        CpuFeature::SSSE3 => {
            assert(all_features()[3] == f);
        },
        CpuFeature::SSE4_1 => {
            assert(all_features()[4] == f);
        },
        CpuFeature::SSE4_2 => {
            assert(all_features()[5] == f);
        },
        CpuFeature::AVX => {
            assert(all_features()[6] == f);
        },
        CpuFeature::AVX2 => {
            assert(all_features()[7] == f);
        },
        CpuFeature::AVX512F => {
            assert(all_features()[8] == f);
        },
        CpuFeature::BMI1 => {
            assert(all_features()[9] == f);
        },
        CpuFeature::BMI2 => {
            assert(all_features()[10] == f);
        },
        CpuFeature::POPCNT => {
            assert(all_features()[11] == f);
        },
        CpuFeature::CMPXCHG8B => {
            assert(all_features()[12] == f);
        },
        CpuFeature::CMPXCHG16B => {
            assert(all_features()[13] == f);
        },
        CpuFeature::RDTSC => {
            assert(all_features()[14] == f);
        },
        CpuFeature::AES => {
            assert(all_features()[15] == f);
        },
        CpuFeature::PCLMULQDQ => {
            assert(all_features()[16] == f);
        },
        CpuFeature::XSAVE => {
            assert(all_features()[17] == f);
        },
        CpuFeature::OSXSAVE => {
            assert(all_features()[18] == f);
        },
        CpuFeature::F16C => {
            assert(all_features()[19] == f);
        },
        CpuFeature::FMA => {
            assert(all_features()[20] == f);
        },
        CpuFeature::MMX => {
            assert(all_features()[21] == f);
        },
        CpuFeature::FXSR => {
            assert(all_features()[22] == f);
        },
        CpuFeature::TSC => {
            assert(all_features()[23] == f);
        },
        CpuFeature::MSR => {
            assert(all_features()[24] == f);
        },
    }
}

/// A filter of a list without repeats has none.
proof fn lemma_filter_no_repeats(s: Seq<CpuFeature>, pred: spec_fn(CpuFeature) -> bool)
    requires
        s.no_duplicates(),
    ensures
        s.filter(pred).no_duplicates(),
    decreases s.len(),
{
    reveal(Seq::filter);
    if s.len() > 0 {
        let rest = s.drop_last();
        assert(rest.no_duplicates());
        lemma_filter_no_repeats(rest, pred);
        if pred(s.last()) {
            if rest.filter(pred).contains(s.last()) {
                rest.lemma_filter_contains_rev(pred, s.last());
                let j = choose|j: int| 0 <= j < rest.len() && rest[j] == s.last();
                assert(s[j] == s[s.len() - 1]);
            }
            let fl = rest.filter(pred);
            assert forall|i: int, j: int| 0 <= i < j < fl.push(s.last()).len() implies fl.push(s.last())[i] != fl.push(
                s.last(),
            )[j] by {
                if j == fl.len() {
                    assert(fl[i] == fl.push(s.last())[i]);
                    assert(fl.contains(fl[i]));
                }
            }
        }
    }
}

/// The supported features list every feature the probe reports, only
/// those, and none twice; the required features are all reported exactly
/// when they are all listed.
pub proof fn lemma_supported_features(p: FeatureProbe)
    ensures
        forall|f: CpuFeature| #[trigger] supported_in(p).contains(f) <==> feature_in(p, f),
        supported_in(p).no_duplicates(),
        required_in(p) <==> (forall|i: int| 0 <= i < 3 ==> supported_in(p).contains(#[trigger] required_features()[i])),
{
    broadcast use vstd::seq_lib::group_filter_ensures;
    assert(all_features().no_duplicates());
    lemma_filter_no_repeats(all_features(), reported_by(p));
    assert forall|f: CpuFeature| #[trigger] supported_in(p).contains(f) <==> feature_in(p, f) by {
        lemma_listed(f);
        let i = choose|i: int| 0 <= i < all_features().len() && all_features()[i] == f;
        if feature_in(p, f) {
            all_features().lemma_filter_contains(reported_by(p), i);
        }
        if supported_in(p).contains(f) {
            let j = choose|j: int| 0 <= j < supported_in(p).len() && supported_in(p)[j] == f;
            all_features().lemma_filter_pred(reported_by(p), j);
        }
    }
}

} // verus!
