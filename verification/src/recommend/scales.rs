//! Low / default / high size tiers for recommend UI and CLI.
use vstd::prelude::*;

use super::staging::{eval_zram_size_mb, spec_eval_zram_size_mb};
use super::types::{RecommendProfile, OVERFLOW_SWAPFILE_HIGH_MAX_MB, OVERFLOW_SWAPFILE_MAX_MB};
use crate::apply::types::sv;
use crate::text::{chars_of, eq_str, owned};

verus! {

/// User-selectable size tier for zram or overflow swapfile.
#[derive(Debug, Clone, Copy, PartialEq, Eq, Structural)]
pub enum RecommendSizeScale {
    Low,
    Default,
    High,
}

impl Default for RecommendSizeScale {
    fn default() -> (s: Self)
        ensures
            s == RecommendSizeScale::Default,
    {
        RecommendSizeScale::Default
    }
}

pub open spec fn scale_name(s: RecommendSizeScale) -> Seq<char> {
    match s {
        RecommendSizeScale::Low => "low"@,
        RecommendSizeScale::Default => "default"@,
        RecommendSizeScale::High => "high"@,
    }
}

pub open spec fn spec_parse_scale(v: Seq<char>) -> Option<RecommendSizeScale> {
    if v == "low"@ {
        Some(RecommendSizeScale::Low)
    } else if v == "default"@ {
        Some(RecommendSizeScale::Default)
    } else if v == "high"@ {
        Some(RecommendSizeScale::High)
    } else {
        None
    }
}

impl RecommendSizeScale {
    pub fn as_str(self) -> (s: &'static str)
        ensures
            s@ == scale_name(self),
    {
        match self {
            RecommendSizeScale::Low => "low",
            RecommendSizeScale::Default => "default",
            RecommendSizeScale::High => "high",
        }
    }

    pub fn parse(value: &str) -> (r: Option<Self>)
        ensures
            r == spec_parse_scale(value@),
    {
        let v = chars_of(value);
        if eq_str(&v, "low") {
            Some(RecommendSizeScale::Low)
        } else if eq_str(&v, "default") {
            Some(RecommendSizeScale::Default)
        } else if eq_str(&v, "high") {
            Some(RecommendSizeScale::High)
        } else {
            None
        }
    }
}

#[derive(Debug, Clone, Copy, PartialEq, Eq, Structural)]
pub struct RecommendScales {
    pub zram: RecommendSizeScale,
    pub swapfile: RecommendSizeScale,
}

impl Default for RecommendScales {
    fn default() -> (s: Self)
        ensures
            s.zram == RecommendSizeScale::Default,
            s.swapfile == RecommendSizeScale::Default,
    {
        RecommendScales { zram: RecommendSizeScale::Default, swapfile: RecommendSizeScale::Default }
    }
}

#[derive(Debug, Clone)]
pub struct SizeScaleOption {
    pub formula: Option<String>,
    pub size_mib: Option<u64>,
    pub approx_mib: Option<u64>,
}

#[derive(Debug, Clone)]
pub struct ZramSizeScaleOptions {
    pub low: SizeScaleOption,
    pub default: SizeScaleOption,
    pub high: SizeScaleOption,
    pub selected: RecommendSizeScale,
}

#[derive(Debug, Clone)]
pub struct SwapfileSizeScaleOptions {
    /// False when overflow will not be staged (disk swap present, etc.).
    pub available: bool,
    pub low: SizeScaleOption,
    pub default: SizeScaleOption,
    pub high: SizeScaleOption,
    pub selected: RecommendSizeScale,
}

#[derive(Debug, Clone)]
pub struct RecommendSizeScales {
    pub zram: ZramSizeScaleOptions,
    pub swapfile: SwapfileSizeScaleOptions,
}

/// The profile's recommended formula; `mem_gb` is the RAM in whole GiB.
pub open spec fn spec_formula_default(profile: RecommendProfile, mem_gb: u64) -> Seq<char> {
    match profile {
        RecommendProfile::Performance => "ram"@,
        RecommendProfile::Constrained => "min(ram, 4096)"@,
        RecommendProfile::Conservative => if mem_gb >= 32 {
            "min(ram / 2, 8192)"@
        } else {
            "min(ram / 2, 4096)"@
        },
    }
}

/// The size formula for a profile and tier; `mem_gb` is the RAM in whole GiB.
pub open spec fn spec_formula(profile: RecommendProfile, mem_gb: u64, scale: RecommendSizeScale) -> Seq<char> {
    match (profile, scale) {
        (RecommendProfile::Constrained, RecommendSizeScale::Low) => "min(ram / 2, 2048)"@,
        (RecommendProfile::Constrained, RecommendSizeScale::High) => "min(ram, 8192)"@,
        (RecommendProfile::Conservative, RecommendSizeScale::Low) => if mem_gb >= 32 {
            "min(ram / 4, 4096)"@
        } else {
            "min(ram / 4, 2048)"@
        },
        (RecommendProfile::Conservative, RecommendSizeScale::High) => if mem_gb >= 32 {
            "min(ram, 16384)"@
        } else {
            "min(ram, 8192)"@
        },
        (RecommendProfile::Performance, RecommendSizeScale::Low) => "min(ram / 2, 4096)"@,
        (RecommendProfile::Performance, _) => "ram"@,
        (_, RecommendSizeScale::Default) => spec_formula_default(profile, mem_gb),
    }
}

/// Profile "Recommended" formula.
pub fn zram_size_formula_default(profile: RecommendProfile, mem_gb: u64) -> (s: String)
    ensures
        s@ == spec_formula_default(profile, mem_gb),
{
    match profile {
        RecommendProfile::Performance => owned("ram"),
        RecommendProfile::Constrained => owned("min(ram, 4096)"),
        RecommendProfile::Conservative => {
            if mem_gb >= 32 {
                owned("min(ram / 2, 8192)")
            } else {
                owned("min(ram / 2, 4096)")
            }
        },
    }
}

pub fn zram_size_formula(profile: RecommendProfile, mem_gb: u64, scale: RecommendSizeScale) -> (s: String)
    ensures
        s@ == spec_formula(profile, mem_gb, scale),
{
    match (profile, scale) {
        (RecommendProfile::Constrained, RecommendSizeScale::Low) => owned("min(ram / 2, 2048)"),
        (RecommendProfile::Constrained, RecommendSizeScale::Default) => zram_size_formula_default(
            profile,
            mem_gb,
        ),
        (RecommendProfile::Constrained, RecommendSizeScale::High) => owned("min(ram, 8192)"),
        (RecommendProfile::Conservative, RecommendSizeScale::Low) => {
            if mem_gb >= 32 {
                owned("min(ram / 4, 4096)")
            } else {
                owned("min(ram / 4, 2048)")
            }
        },
        (RecommendProfile::Conservative, RecommendSizeScale::Default) => zram_size_formula_default(
            profile,
            mem_gb,
        ),
        (RecommendProfile::Conservative, RecommendSizeScale::High) => {
            if mem_gb >= 32 {
                owned("min(ram, 16384)")
            } else {
                owned("min(ram, 8192)")
            }
        },
        (RecommendProfile::Performance, RecommendSizeScale::Low) => owned("min(ram / 2, 4096)"),
        (RecommendProfile::Performance, _) => owned("ram"),
    }
}

/// Overflow swapfile size in MiB for a tier: half the RAM up to 4 GiB (low),
/// the RAM up to 8 GiB (default) or up to 16 GiB (high).
pub open spec fn spec_overflow_for_scale(mem_total_kb: u64, scale: RecommendSizeScale) -> u64 {
    let ram_mb = mem_total_kb / 1024;
    match scale {
        RecommendSizeScale::Low => if ram_mb / 2 <= 4096 {
            ram_mb / 2
        } else {
            4096
        },
        RecommendSizeScale::Default => if ram_mb <= OVERFLOW_SWAPFILE_MAX_MB {
            ram_mb
        } else {
            OVERFLOW_SWAPFILE_MAX_MB
        },
        RecommendSizeScale::High => if ram_mb <= OVERFLOW_SWAPFILE_HIGH_MAX_MB {
            ram_mb
        } else {
            OVERFLOW_SWAPFILE_HIGH_MAX_MB
        },
    }
}

pub fn overflow_size_mb_for_scale(mem_total_kb: u64, scale: RecommendSizeScale) -> (r: u64)
    ensures
        r == spec_overflow_for_scale(mem_total_kb, scale),
{
    let ram_mb = mem_total_kb / 1024;
    match scale {
        RecommendSizeScale::Low => if ram_mb / 2 <= 4096 {
            ram_mb / 2
        } else {
            4096
        },
        RecommendSizeScale::Default => if ram_mb <= OVERFLOW_SWAPFILE_MAX_MB {
            ram_mb
        } else {
            OVERFLOW_SWAPFILE_MAX_MB
        },
        RecommendSizeScale::High => if ram_mb <= OVERFLOW_SWAPFILE_HIGH_MAX_MB {
            ram_mb
        } else {
            OVERFLOW_SWAPFILE_HIGH_MAX_MB
        },
    }
}

/// Whole GiB of RAM for a size in KiB.
pub open spec fn mem_gb_of(mem_total_kb: u64) -> u64 {
    mem_total_kb / 1048576
}

pub open spec fn zram_option_ok(o: SizeScaleOption, profile: RecommendProfile, mem_total_kb: u64, scale: RecommendSizeScale) -> bool {
    let f = spec_formula(profile, mem_gb_of(mem_total_kb), scale);
    &&& sv(o.formula) == Some(f)
    &&& o.size_mib is None
    &&& o.approx_mib == spec_eval_zram_size_mb(f, mem_total_kb / 1024)
}

pub open spec fn swap_option_ok(o: SizeScaleOption, mem_total_kb: u64, scale: RecommendSizeScale) -> bool {
    &&& o.formula is None
    &&& o.size_mib == Some(spec_overflow_for_scale(mem_total_kb, scale))
    &&& o.approx_mib == Some(spec_overflow_for_scale(mem_total_kb, scale))
}

fn zram_option(profile: RecommendProfile, mem_total_kb: u64, scale: RecommendSizeScale) -> (o: SizeScaleOption)
    ensures
        zram_option_ok(o, profile, mem_total_kb, scale),
{
    let formula = zram_size_formula(profile, mem_total_kb / 1048576, scale);
    let approx = eval_zram_size_mb(formula.as_str(), mem_total_kb / 1024);
    SizeScaleOption { formula: Some(formula), size_mib: None, approx_mib: approx }
}

fn swap_option(mem_total_kb: u64, scale: RecommendSizeScale) -> (o: SizeScaleOption)
    ensures
        swap_option_ok(o, mem_total_kb, scale),
{
    let size = overflow_size_mb_for_scale(mem_total_kb, scale);
    SizeScaleOption { formula: None, size_mib: Some(size), approx_mib: Some(size) }
}

/// Every offered zram formula and swapfile size is the one of its tier,
/// and the selected tiers are the requested ones.
pub open spec fn size_scales_ok(
    r: RecommendSizeScales,
    profile: RecommendProfile,
    mem_total_kb: u64,
    scales: RecommendScales,
    swapfile_available: bool,
) -> bool {
    &&& zram_option_ok(r.zram.low, profile, mem_total_kb, RecommendSizeScale::Low)
    &&& zram_option_ok(r.zram.default, profile, mem_total_kb, RecommendSizeScale::Default)
    &&& zram_option_ok(r.zram.high, profile, mem_total_kb, RecommendSizeScale::High)
    &&& r.zram.selected == scales.zram
    &&& r.swapfile.available == swapfile_available
    &&& swap_option_ok(r.swapfile.low, mem_total_kb, RecommendSizeScale::Low)
    &&& swap_option_ok(r.swapfile.default, mem_total_kb, RecommendSizeScale::Default)
    &&& swap_option_ok(r.swapfile.high, mem_total_kb, RecommendSizeScale::High)
    &&& r.swapfile.selected == scales.swapfile
}

/// The three zram formulas and three swapfile sizes offered for this
/// machine, with the selected tiers.
pub fn build_size_scales(
    profile: RecommendProfile,
    mem_total_kb: u64,
    scales: RecommendScales,
    swapfile_available: bool,
) -> (r: RecommendSizeScales)
    ensures
        size_scales_ok(r, profile, mem_total_kb, scales, swapfile_available),
{
    RecommendSizeScales {
        zram: ZramSizeScaleOptions {
            low: zram_option(profile, mem_total_kb, RecommendSizeScale::Low),
            default: zram_option(profile, mem_total_kb, RecommendSizeScale::Default),
            high: zram_option(profile, mem_total_kb, RecommendSizeScale::High),
            selected: scales.zram,
        },
        swapfile: SwapfileSizeScaleOptions {
            available: swapfile_available,
            low: swap_option(mem_total_kb, RecommendSizeScale::Low),
            default: swap_option(mem_total_kb, RecommendSizeScale::Default),
            high: swap_option(mem_total_kb, RecommendSizeScale::High),
            selected: scales.swapfile,
        },
    }
}

/// The tiers are ordered: the low swapfile size never exceeds the default,
/// and the default never exceeds the high one.
pub proof fn lemma_overflow_tiers_ordered(mem_total_kb: u64)
    ensures
        spec_overflow_for_scale(mem_total_kb, RecommendSizeScale::Low) <= spec_overflow_for_scale(
            mem_total_kb,
            RecommendSizeScale::Default,
        ),
        spec_overflow_for_scale(mem_total_kb, RecommendSizeScale::Default)
            <= spec_overflow_for_scale(mem_total_kb, RecommendSizeScale::High),
{
}

/// `parse` gives back the tier that `as_str` names.
pub proof fn lemma_scale_name_roundtrip(s: RecommendSizeScale)
    ensures
        spec_parse_scale(scale_name(s)) == Some(s),
{
    reveal_strlit("low");
    reveal_strlit("default");
    reveal_strlit("high");
    assert("low"@.len() == 3 && "default"@.len() == 7 && "high"@.len() == 4);
    assert("low"@ != "default"@ && "low"@ != "high"@ && "default"@ != "high"@);
}

} // verus!
