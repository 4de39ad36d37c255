//! Profile choice and the recommended zram device for it.
use vstd::prelude::*;

use super::scales::{mem_gb_of, spec_formula, spec_formula_default, zram_size_formula, zram_size_formula_default, RecommendSizeScale};
use super::types::RecommendProfile;
use crate::apply::types::{ZramConfig, ZramConfigView};
use crate::config::default_zram_config;
use crate::detect::{DetectionReport, DistroFamily};
use crate::status::StatusReport;
use crate::text::{chars_of, eq_str, owned};

verus! {

/// CachyOS gets the performance profile; otherwise under 4 GiB of RAM is
/// constrained and the rest conservative.
pub open spec fn spec_pick_profile(distro_id: Seq<char>, mem_total_kb: u64) -> RecommendProfile {
    if distro_id == "cachyos"@ {
        RecommendProfile::Performance
    } else if mem_gb_of(mem_total_kb) < 4 {
        RecommendProfile::Constrained
    } else {
        RecommendProfile::Conservative
    }
}

/// CachyOS gets the performance profile; any other host gets the
/// constrained profile with less than 4 GiB of RAM and the conservative one
/// otherwise. At the default tier the recommended device is `zram0` at
/// priority 100, sized `ram` on CachyOS and otherwise `min(ram, 4096)` under
/// 4 GiB, `min(ram / 2, 4096)` from 4 GiB and `min(ram / 2, 8192)` from
/// 32 GiB. It compresses with lz4 on a host outside the Arch family with
/// under 4 GiB of RAM and fewer than 4 cores, else with zstd, and only
/// CachyOS gets the resident limit `ram / 2`.
pub proof fn lemma_profile_by_ram(distro_id: Seq<char>, mem_total_kb: u64, family: DistroFamily, cpu_cores: u32)
    ensures
        distro_id == "cachyos"@ ==> spec_pick_profile(distro_id, mem_total_kb) == RecommendProfile::Performance,
        distro_id != "cachyos"@ ==> spec_pick_profile(distro_id, mem_total_kb) == (if mem_total_kb < 4 * 1048576 {
            RecommendProfile::Constrained
        } else {
            RecommendProfile::Conservative
        }),
        ({
            let z = spec_recommended_zram(
                spec_pick_profile(distro_id, mem_total_kb),
                family,
                distro_id,
                mem_total_kb,
                cpu_cores,
                RecommendSizeScale::Default,
            );
            &&& z.device == "zram0"@
            &&& z.swap_priority == Some(100i32)
            &&& z.compression_algorithm == Some(
                if family != DistroFamily::Arch && distro_id != "cachyos"@ && mem_total_kb < 4 * 1048576 && cpu_cores
                    < 4 {
                    "lz4"@
                } else {
                    "zstd"@
                },
            )
            &&& z.zram_resident_limit == (if distro_id == "cachyos"@ { Some("ram / 2"@) } else { None })
            &&& z.zram_size == Some(
                if distro_id == "cachyos"@ {
                    "ram"@
                } else if mem_total_kb < 4 * 1048576 {
                    "min(ram, 4096)"@
                } else if mem_total_kb < 32 * 1048576 {
                    "min(ram / 2, 4096)"@
                } else {
                    "min(ram / 2, 8192)"@
                },
            )
        }),
{
}

pub fn pick_profile(detection: &DetectionReport, status: &StatusReport) -> (p: RecommendProfile)
    ensures
        p == spec_pick_profile(detection.distro.id@, status.memory.mem_total_kb),
{
    let id = chars_of(detection.distro.id.as_str());
    if eq_str(&id, "cachyos") {
        return RecommendProfile::Performance;
    }
    if status.memory.mem_total_kb / 1048576 < 4 {
        RecommendProfile::Constrained
    } else {
        RecommendProfile::Conservative
    }
}

pub open spec fn spec_profile_reference(profile: RecommendProfile) -> Seq<char> {
    match profile {
        RecommendProfile::Conservative => "profile-conservative"@,
        RecommendProfile::Performance => "profile-performance"@,
        RecommendProfile::Constrained => "profile-constrained"@,
    }
}

/// The documentation anchor for a profile.
pub fn profile_reference(profile: RecommendProfile) -> (r: Option<&'static str>)
    ensures
        r is Some,
        r->0@ == spec_profile_reference(profile),
{
    Some(
        match profile {
            RecommendProfile::Conservative => "profile-conservative",
            RecommendProfile::Performance => "profile-performance",
            RecommendProfile::Constrained => "profile-constrained",
        },
    )
}

/// Arch-family distros and CachyOS use zstd; otherwise lz4 when both RAM is
/// under 4 GiB and there are fewer than 4 cores, else zstd.
pub open spec fn spec_algorithm(mem_gb: u64, family: DistroFamily, distro_id: Seq<char>, cpu_cores: u32) -> Seq<char> {
    if family == DistroFamily::Arch || distro_id == "cachyos"@ {
        "zstd"@
    } else if mem_gb < 4 && cpu_cores < 4 {
        "lz4"@
    } else {
        "zstd"@
    }
}

/// `mem_gb` is the RAM in whole GiB; `cpu_cores` the logical CPU count.
pub fn pick_compression_algorithm_for_cores(mem_gb: u64, detection: &DetectionReport, cpu_cores: u32) -> (a: String)
    ensures
        a@ == spec_algorithm(mem_gb, detection.distro.family, detection.distro.id@, cpu_cores),
{
    let id = chars_of(detection.distro.id.as_str());
    if detection.distro.family == DistroFamily::Arch || eq_str(&id, "cachyos") {
        return owned("zstd");
    }
    if mem_gb < 4 && cpu_cores < 4 {
        owned("lz4")
    } else {
        owned("zstd")
    }
}

/// The profile's default size formula; `mem_gb` is the RAM in whole GiB.
pub fn pick_zram_size_formula(profile: RecommendProfile, mem_gb: u64) -> (s: String)
    ensures
        s@ == spec_formula_default(profile, mem_gb),
{
    zram_size_formula_default(profile, mem_gb)
}

pub open spec fn spec_resident_limit(profile: RecommendProfile) -> Option<Seq<char>> {
    match profile {
        RecommendProfile::Performance => Some("ram / 2"@),
        _ => None,
    }
}

/// The performance profile caps resident memory at half the RAM.
pub fn pick_zram_resident_limit(profile: RecommendProfile) -> (r: Option<String>)
    ensures
        crate::apply::types::sv(r) == spec_resident_limit(profile),
{
    match profile {
        RecommendProfile::Performance => Some(owned("ram / 2")),
        RecommendProfile::Conservative | RecommendProfile::Constrained => None,
    }
}

/// The recommended device: zram0 at priority 100, with the tier's formula,
/// the profile's resident limit and the chosen algorithm.
pub open spec fn spec_recommended_zram(
    profile: RecommendProfile,
    family: DistroFamily,
    distro_id: Seq<char>,
    mem_total_kb: u64,
    cpu_cores: u32,
    scale: RecommendSizeScale,
) -> ZramConfigView {
    ZramConfigView {
        device: "zram0"@,
        zram_size: Some(spec_formula(profile, mem_gb_of(mem_total_kb), scale)),
        zram_resident_limit: spec_resident_limit(profile),
        compression_algorithm: Some(spec_algorithm(mem_gb_of(mem_total_kb), family, distro_id, cpu_cores)),
        swap_priority: Some(100),
        fs_type: None,
        mount_point: None,
    }
}

/// The recommended zram device for a size tier.
pub fn build_recommended_zram_scaled(
    profile: RecommendProfile,
    detection: &DetectionReport,
    status: &StatusReport,
    cpu_cores: u32,
    scale: RecommendSizeScale,
) -> (z: ZramConfig)
    ensures
        z@ == spec_recommended_zram(
            profile,
            detection.distro.family,
            detection.distro.id@,
            status.memory.mem_total_kb,
            cpu_cores,
            scale,
        ),
{
    let defaults = default_zram_config();
    let mem_gb = status.memory.mem_total_kb / 1048576;
    let algorithm = pick_compression_algorithm_for_cores(mem_gb, detection, cpu_cores);
    let zram_size = zram_size_formula(profile, mem_gb, scale);
    let zram_resident_limit = pick_zram_resident_limit(profile);
    ZramConfig {
        device: defaults.name,
        zram_size: Some(zram_size),
        zram_resident_limit,
        compression_algorithm: Some(algorithm),
        swap_priority: defaults.swap_priority,
        fs_type: None,
        mount_point: None,
    }
}

/// The recommended zram device at the default tier.
pub fn build_recommended_zram(
    profile: RecommendProfile,
    detection: &DetectionReport,
    status: &StatusReport,
    cpu_cores: u32,
) -> (z: ZramConfig)
    ensures
        z@ == spec_recommended_zram(
            profile,
            detection.distro.family,
            detection.distro.id@,
            status.memory.mem_total_kb,
            cpu_cores,
            RecommendSizeScale::Default,
        ),
{
    build_recommended_zram_scaled(profile, detection, status, cpu_cores, RecommendSizeScale::Default)
}

} // verus!
