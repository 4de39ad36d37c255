use xzram::apply::types::ZramConfig;
use xzram::detect::{zram_generator_package_name, DetectionReport, DistroFamily, DistroInfo, PackageManager, ZramBackend};
use xzram::recommend::engine::{recommend, recommend_with_scales, RecommendInputs};
use xzram::recommend::engine_build::{recommend_from_context_scaled, HostFacts, OverflowInputs};
use xzram::recommend::overflow::{decide_overflow_swapfile, overflow_size_mb};
use xzram::recommend::profile::{build_recommended_zram, pick_compression_algorithm_for_cores, pick_profile, pick_zram_size_formula};
use xzram::recommend::scales::{overflow_size_mb_for_scale, zram_size_formula, RecommendScales, RecommendSizeScale};
use xzram::recommend::staging::{zram_for_staging, zram_needs_update, zram_size_needs_update};
use xzram::recommend::types::{
    OverflowDecision, RecommendProfile, OVERFLOW_FREE_SPACE_MARGIN_MB, OVERFLOW_SWAPFILE_MAX_MB, OVERFLOW_SWAPFILE_PATH,
    OVERFLOW_SWAP_PRIORITY,
};
use xzram::status::{MemoryInfo, StatusReport, SwapEntry};
use xzram::sysctl::SysctlValues;

const GIB_KB: u64 = 1024 * 1024;
const GIB: u64 = 1024 * 1024 * 1024;

fn detection(id: &str, like: &[&str], family: DistroFamily, pm: PackageManager) -> DetectionReport {
    DetectionReport {
        distro: DistroInfo {
            id: id.into(),
            id_like: like.iter().map(|s| s.to_string()).collect(),
            family,
            version_id: None,
            pretty_name: None,
        },
        package_manager: pm,
        init_system: "systemd".into(),
        zram_backend: ZramBackend::Absent,
        zram_generator_installed: false,
        zram_generator_config: None,
        root_filesystem: None,
        etc_writable: true,
        immutable_os: false,
    }
}

fn ubuntu_detection() -> DetectionReport {
    detection("ubuntu", &["debian"], DistroFamily::Ubuntu, PackageManager::Apt)
}

fn cachyos_detection() -> DetectionReport {
    detection("cachyos", &["arch"], DistroFamily::Arch, PackageManager::Pacman)
}

fn status_with(swaps: Vec<SwapEntry>, mem_total_kb: u64) -> StatusReport {
    StatusReport {
        swaps,
        zram_devices: vec![],
        memory: MemoryInfo { mem_total_kb, mem_available_kb: mem_total_kb / 2, swap_total_kb: 0, swap_free_kb: 0 },
    }
}

fn zram(size: &str, limit: Option<&str>, algo: &str) -> ZramConfig {
    ZramConfig {
        device: "zram0".into(),
        zram_size: Some(size.into()),
        zram_resident_limit: limit.map(|s| s.to_string()),
        compression_algorithm: Some(algo.into()),
        swap_priority: Some(100),
        fs_type: None,
        mount_point: None,
    }
}

// ----- scenarios that span several modules -----

fn case_pick_algorithm_low_ram_weak_cpu() {
    let detection = ubuntu_detection();
    assert_eq!(pick_compression_algorithm_for_cores(2, &detection, 2), "lz4");
    assert_eq!(pick_compression_algorithm_for_cores(2, &detection, 8), "zstd");
    assert_eq!(pick_compression_algorithm_for_cores(8, &detection, 1), "zstd");
}

fn case_cachyos_uses_performance_size_and_resident_limit() {
    let detection = cachyos_detection();
    let status = status_with(vec![], 16 * GIB_KB);
    let profile = pick_profile(&detection, &status);
    assert_eq!(profile, RecommendProfile::Performance);
    let zram = build_recommended_zram(profile, &detection, &status, 8);
    assert_eq!(zram.zram_size.as_deref(), Some("ram"));
    assert_eq!(zram.zram_resident_limit.as_deref(), Some("ram / 2"));
}

fn case_conservative_large_ram_caps_at_8192() {
    assert_eq!(pick_zram_size_formula(RecommendProfile::Conservative, 64), "min(ram / 2, 8192)");
}

fn case_constrained_profile_size() {
    assert_eq!(pick_zram_size_formula(RecommendProfile::Constrained, 2), "min(ram, 4096)");
}

fn case_overflow_size_capped_at_8_gib() {
    assert_eq!(overflow_size_mb(32 * GIB_KB), 8192);
    assert_eq!(overflow_size_mb(4 * GIB_KB), 4096);
}

fn case_overflow_swapfile_when_no_disk_swap() {
    let status = status_with(
        vec![SwapEntry {
            name: "/dev/zram0".into(),
            swap_type: "partition".into(),
            size_bytes: 8 * GIB,
            used_bytes: 0,
            priority: 100,
        }],
        8 * GIB_KB,
    );
    match decide_overflow_swapfile(&status, false, &[], Some(64 * GIB)) {
        OverflowDecision::Stage(swapfile) => {
            assert_eq!(swapfile.path, OVERFLOW_SWAPFILE_PATH);
            assert_eq!(swapfile.size_mb, 8192);
            assert_eq!(swapfile.priority, OVERFLOW_SWAP_PRIORITY);
        },
        other => panic!("expected Stage, got {other:?}"),
    }
}

fn case_overflow_capped_for_large_ram() {
    let status = status_with(vec![], 64 * GIB_KB);
    match decide_overflow_swapfile(&status, false, &[], Some(128 * GIB)) {
        OverflowDecision::Stage(swapfile) => assert_eq!(swapfile.size_mb, OVERFLOW_SWAPFILE_MAX_MB),
        other => panic!("expected Stage, got {other:?}"),
    }
}

fn case_no_overflow_when_disk_swap_exists() {
    let status = status_with(
        vec![SwapEntry { name: "/swapfile".into(), swap_type: "file".into(), size_bytes: 1024, used_bytes: 0, priority: 10 }],
        8 * GIB_KB,
    );
    assert!(matches!(
        decide_overflow_swapfile(&status, false, &[], Some(64 * GIB)),
        OverflowDecision::SkipActiveDiskSwap
    ));
}

fn case_no_overflow_when_fstab_disk_swap_configured() {
    let status = status_with(vec![], 8 * GIB_KB);
    let paths: Vec<String> = vec!["/swap/oldswap".into()];
    match decide_overflow_swapfile(&status, true, &paths, Some(64 * GIB)) {
        OverflowDecision::SkipConfiguredDiskSwap { paths: p } => assert_eq!(p, paths),
        other => panic!("expected SkipConfiguredDiskSwap, got {other:?}"),
    }
}

fn case_no_overflow_when_insufficient_space() {
    let status = status_with(vec![], 8 * GIB_KB);
    match decide_overflow_swapfile(&status, false, &[], Some(100 * 1024 * 1024)) {
        OverflowDecision::SkipInsufficientSpace { required_mb, available_mb } => {
            assert_eq!(required_mb, 8192 + OVERFLOW_FREE_SPACE_MARGIN_MB);
            assert_eq!(available_mb, 100);
        },
        other => panic!("expected SkipInsufficientSpace, got {other:?}"),
    }
}

fn case_zram_needs_update_detects_algorithm_change() {
    let current = zram("min(ram / 2, 4096)", None, "lzo-rle");
    let recommended = ZramConfig { compression_algorithm: Some("zstd".into()), ..current.clone() };
    assert!(zram_needs_update(Some(&current), &recommended, 16 * 1024));
}

fn case_zram_needs_update_detects_resident_limit() {
    let current = zram("ram", None, "zstd");
    let recommended = ZramConfig { zram_resident_limit: Some("ram / 2".into()), ..current.clone() };
    assert!(zram_needs_update(Some(&current), &recommended, 16 * 1024));
}

fn case_vendor_fedora_size_not_shrunk() {
    let current = zram("min(ram, 8192)", None, "zstd");
    let recommended = ZramConfig { zram_size: Some("min(ram / 2, 4096)".into()), ..current.clone() };
    assert!(!zram_size_needs_update(current.zram_size.as_deref(), recommended.zram_size.as_deref().unwrap(), 16 * 1024));
    assert!(!zram_needs_update(Some(&current), &recommended, 16 * 1024));
}

fn case_vendor_size_kept_when_staging_algo_change() {
    let current = zram("min(ram, 8192)", None, "lzo-rle");
    let recommended = ZramConfig {
        zram_size: Some("min(ram / 2, 4096)".into()),
        compression_algorithm: Some("zstd".into()),
        ..current.clone()
    };
    assert!(zram_needs_update(Some(&current), &recommended, 16 * 1024));
    let staged = zram_for_staging(Some(&current), &recommended, 16 * 1024);
    assert_eq!(staged.zram_size.as_deref(), Some("min(ram, 8192)"));
    assert_eq!(staged.compression_algorithm.as_deref(), Some("zstd"));
}

fn case_apt_package_name_is_systemd_zram_generator() {
    assert_eq!(zram_generator_package_name(PackageManager::Apt), "systemd-zram-generator");
}

#[test]
fn recommend_pick_algorithm_low_ram_weak_cpu() {
    case_pick_algorithm_low_ram_weak_cpu();
}

#[test]
fn profile_pick_algorithm_low_ram_weak_cpu() {
    case_pick_algorithm_low_ram_weak_cpu();
}

#[test]
fn recommend_cachyos_uses_performance_size_and_resident_limit() {
    case_cachyos_uses_performance_size_and_resident_limit();
}

#[test]
fn profile_cachyos_uses_performance_size_and_resident_limit() {
    case_cachyos_uses_performance_size_and_resident_limit();
}

#[test]
fn recommend_conservative_large_ram_caps_at_8192() {
    case_conservative_large_ram_caps_at_8192();
}

#[test]
fn profile_conservative_large_ram_caps_at_8192() {
    case_conservative_large_ram_caps_at_8192();
}

#[test]
fn recommend_constrained_profile_size() {
    case_constrained_profile_size();
}

#[test]
fn profile_constrained_profile_size() {
    case_constrained_profile_size();
}

#[test]
fn recommend_overflow_size_capped_at_8_gib() {
    case_overflow_size_capped_at_8_gib();
}

#[test]
fn overflow_overflow_size_capped_at_8_gib() {
    case_overflow_size_capped_at_8_gib();
}

#[test]
fn recommend_overflow_swapfile_when_no_disk_swap() {
    case_overflow_swapfile_when_no_disk_swap();
}

#[test]
fn overflow_overflow_swapfile_when_no_disk_swap() {
    case_overflow_swapfile_when_no_disk_swap();
}

#[test]
fn recommend_overflow_capped_for_large_ram() {
    case_overflow_capped_for_large_ram();
}

#[test]
fn overflow_overflow_capped_for_large_ram() {
    case_overflow_capped_for_large_ram();
}

#[test]
fn recommend_no_overflow_when_disk_swap_exists() {
    case_no_overflow_when_disk_swap_exists();
}

#[test]
fn overflow_no_overflow_when_disk_swap_exists() {
    case_no_overflow_when_disk_swap_exists();
}

#[test]
fn recommend_no_overflow_when_fstab_disk_swap_configured() {
    case_no_overflow_when_fstab_disk_swap_configured();
}

#[test]
fn overflow_no_overflow_when_fstab_disk_swap_configured() {
    case_no_overflow_when_fstab_disk_swap_configured();
}

#[test]
fn recommend_no_overflow_when_insufficient_space() {
    case_no_overflow_when_insufficient_space();
}

#[test]
fn overflow_no_overflow_when_insufficient_space() {
    case_no_overflow_when_insufficient_space();
}

#[test]
fn recommend_zram_needs_update_detects_algorithm_change() {
    case_zram_needs_update_detects_algorithm_change();
}

#[test]
fn staging_zram_needs_update_detects_algorithm_change() {
    case_zram_needs_update_detects_algorithm_change();
}

#[test]
fn recommend_zram_needs_update_detects_resident_limit() {
    case_zram_needs_update_detects_resident_limit();
}

#[test]
fn staging_zram_needs_update_detects_resident_limit() {
    case_zram_needs_update_detects_resident_limit();
}

#[test]
fn recommend_vendor_fedora_size_not_shrunk() {
    case_vendor_fedora_size_not_shrunk();
}

#[test]
fn staging_vendor_fedora_size_not_shrunk() {
    case_vendor_fedora_size_not_shrunk();
}

#[test]
fn recommend_vendor_size_kept_when_staging_algo_change() {
    case_vendor_size_kept_when_staging_algo_change();
}

#[test]
fn staging_vendor_size_kept_when_staging_algo_change() {
    case_vendor_size_kept_when_staging_algo_change();
}

#[test]
fn recommend_apt_package_name_is_systemd_zram_generator() {
    case_apt_package_name_is_systemd_zram_generator();
}

#[test]
fn types_apt_package_name_is_systemd_zram_generator() {
    case_apt_package_name_is_systemd_zram_generator();
}

#[test]
fn conservative_tiers() {
    assert_eq!(zram_size_formula(RecommendProfile::Conservative, 8, RecommendSizeScale::Low), "min(ram / 4, 2048)");
    assert_eq!(zram_size_formula(RecommendProfile::Conservative, 8, RecommendSizeScale::Default), "min(ram / 2, 4096)");
    assert_eq!(zram_size_formula(RecommendProfile::Conservative, 8, RecommendSizeScale::High), "min(ram, 8192)");
}

#[test]
fn overflow_high_caps_at_16g() {
    assert_eq!(overflow_size_mb_for_scale(32 * GIB_KB, RecommendSizeScale::High), 16384);
    assert_eq!(overflow_size_mb_for_scale(8 * GIB_KB, RecommendSizeScale::Default), 8192);
    assert_eq!(overflow_size_mb_for_scale(8 * GIB_KB, RecommendSizeScale::Low), 4096);
}

// ----- the engine -----

fn base_detection(etc_writable: bool, immutable_os: bool) -> DetectionReport {
    DetectionReport {
        distro: DistroInfo {
            id: "fedora".into(),
            id_like: vec![],
            family: DistroFamily::Fedora,
            version_id: Some("40".into()),
            pretty_name: Some("Fedora".into()),
        },
        package_manager: PackageManager::Dnf,
        init_system: "systemd".into(),
        zram_backend: ZramBackend::SystemdZramGenerator,
        zram_generator_installed: true,
        zram_generator_config: None,
        root_filesystem: Some("ext4".into()),
        etc_writable,
        immutable_os,
    }
}

fn facts() -> HostFacts {
    HostFacts { zswap_enabled: Some(false), hibernation_blocks_zram: false, cpu_cores: 8 }
}

fn matching_sysctl() -> SysctlValues {
    SysctlValues {
        swappiness: Some(180),
        watermark_boost_factor: Some(0),
        watermark_scale_factor: Some(125),
        page_cluster: Some(0),
    }
}

fn plenty(configured: bool) -> OverflowInputs {
    OverflowInputs {
        configured_disk_swap: configured,
        configured_paths: if configured { vec!["/swapfile".into()] } else { vec![] },
        available_bytes: Some(100 * GIB),
    }
}

#[test]
fn immutable_os_leaves_pending_empty() {
    let report = recommend_from_context_scaled(
        &base_detection(true, true),
        &status_with(vec![], 16 * GIB_KB),
        None,
        None,
        plenty(false),
        RecommendScales::default(),
        facts(),
    );
    assert!(report.pending.zram.is_none());
    assert!(report.pending.sysctl.is_none());
    assert!(report.pending.swapfile.is_none());
    assert!(report.items.iter().any(|i| i.summary.to_lowercase().contains("immutable")));
}

#[test]
fn read_only_etc_leaves_pending_empty() {
    let report = recommend_from_context_scaled(
        &base_detection(false, false),
        &status_with(vec![], 16 * GIB_KB),
        None,
        None,
        OverflowInputs::default(),
        RecommendScales::default(),
        facts(),
    );
    assert!(report.pending.zram.is_none());
    assert!(report.pending.sysctl.is_none());
    assert!(report.pending.swapfile.is_none());
    assert!(report.items.iter().any(|i| i.summary.to_lowercase().contains("read-only")));
}

#[test]
fn overflow_may_stage_with_injected_space() {
    let report = recommend_from_context_scaled(
        &base_detection(true, false),
        &status_with(vec![], 16 * GIB_KB),
        Some(matching_sysctl()),
        Some(zram("min(ram / 2, 4096)", None, "zstd")),
        plenty(false),
        RecommendScales::default(),
        facts(),
    );
    assert!(report.pending.swapfile.is_some());
    assert!(report.items.iter().any(|i| i.category == "swapfile"));
}

#[test]
fn vendor_size_not_shrunk_via_engine() {
    let report = recommend_from_context_scaled(
        &base_detection(true, false),
        &status_with(vec![], 16 * GIB_KB),
        Some(matching_sysctl()),
        Some(zram("min(ram, 8192)", None, "lzo-rle")),
        plenty(true),
        RecommendScales::default(),
        facts(),
    );
    let staged = report.pending.zram.expect("algo change should stage");
    assert_eq!(staged.zram_size.as_deref(), Some("min(ram, 8192)"));
    assert_eq!(staged.compression_algorithm.as_deref(), Some("zstd"));
}

#[test]
fn high_zram_scale_uses_larger_formula() {
    let report = recommend_from_context_scaled(
        &base_detection(true, false),
        &status_with(vec![], 8 * GIB_KB),
        None,
        None,
        plenty(true),
        RecommendScales { zram: RecommendSizeScale::High, swapfile: RecommendSizeScale::Default },
        facts(),
    );
    let staged = report.pending.zram.expect("zram should stage");
    assert_eq!(staged.zram_size.as_deref(), Some("min(ram, 8192)"));
    assert_eq!(report.size_scales.zram.selected, RecommendSizeScale::High);
}

#[test]
fn matching_system_stages_nothing_and_says_so() {
    let report = recommend_from_context_scaled(
        &base_detection(true, false),
        &status_with(vec![], 16 * GIB_KB),
        Some(matching_sysctl()),
        Some(zram("min(ram / 2, 4096)", None, "zstd")),
        plenty(true),
        RecommendScales::default(),
        facts(),
    );
    assert!(report.pending.zram.is_none());
    assert!(report.pending.sysctl.is_none());
    assert!(report.pending.swapfile.is_none());
    assert_eq!(report.items[0].summary, "System already matches recommended defaults");
    assert!(!report.size_scales.swapfile.available);
}

#[test]
fn scale_names_roundtrip() {
    for s in [RecommendSizeScale::Low, RecommendSizeScale::Default, RecommendSizeScale::High] {
        assert_eq!(RecommendSizeScale::parse(s.as_str()), Some(s));
    }
    assert_eq!(RecommendSizeScale::parse("huge"), None);
}

#[test]
fn insufficient_space_keeps_zero_headroom_exact() {
    let status = status_with(vec![], 8 * GIB_KB);
    let exact = (8192 + OVERFLOW_FREE_SPACE_MARGIN_MB) * 1024 * 1024;
    assert!(matches!(decide_overflow_swapfile(&status, false, &[], Some(exact)), OverflowDecision::Stage(_)));
    assert!(matches!(
        decide_overflow_swapfile(&status, false, &[], Some(exact - 1024 * 1024)),
        OverflowDecision::SkipInsufficientSpace { .. }
    ));
}

fn inputs(detection: DetectionReport, mem_total_kb: u64, overflow: OverflowInputs) -> RecommendInputs {
    RecommendInputs {
        detection,
        status: status_with(vec![], mem_total_kb),
        current_sysctl: None,
        current_zram: None,
        overflow,
        facts: facts(),
    }
}

#[test]
fn entry_points_report_context_and_tiers() {
    let report = recommend_with_scales(
        inputs(base_detection(true, false), 8 * GIB_KB, plenty(true)),
        RecommendScales { zram: RecommendSizeScale::High, swapfile: RecommendSizeScale::Default },
    );
    assert_eq!(report.pending.zram.as_ref().unwrap().zram_size.as_deref(), Some("min(ram, 8192)"));
    assert_eq!(report.size_scales.zram.selected, RecommendSizeScale::High);
    assert!(report.context.etc_writable);
    assert!(!report.context.immutable_os);
    assert!(report.context.has_disk_swap);
    assert!(!report.context.has_active_zram);
    assert_eq!(report.context.profile, "conservative");
    assert_eq!(report.context.mem_total_bytes, 8 * GIB);

    let blocked = recommend(inputs(base_detection(false, true), 8 * GIB_KB, plenty(true)));
    assert!(!blocked.context.etc_writable);
    assert!(blocked.context.immutable_os);
    assert!(blocked.items.iter().all(|i| !i.will_stage));
    assert!(!blocked.items.iter().any(|i| i.summary == "System already matches recommended defaults"));
}

#[test]
fn staged_categories_match_pending_and_values_are_the_defaults() {
    let report = recommend(inputs(base_detection(true, false), 8 * GIB_KB, OverflowInputs::default()));
    let staged = |c: &str| report.items.iter().any(|i| i.category == c && i.will_stage);
    assert_eq!(staged("zram"), report.pending.zram.is_some());
    assert_eq!(staged("sysctl"), report.pending.sysctl.is_some());
    assert_eq!(staged("swapfile"), report.pending.swapfile.is_some());
    let z = report.pending.zram.as_ref().unwrap();
    assert_eq!(z.device, "zram0");
    assert_eq!(z.swap_priority, Some(100));
    let f = report.pending.swapfile.as_ref().unwrap();
    assert_eq!(f.path, OVERFLOW_SWAPFILE_PATH);
    assert_eq!(f.priority, 10);
    assert_eq!(f.size_mb, 8192);
    assert_eq!(report.pending.sysctl.unwrap().swappiness, Some(180));
    assert_ne!(report.items[0].summary, "System already matches recommended defaults");
    assert_eq!(report.items.last().unwrap().summary, "Writeback device not used");
}
