use xzram::apply::types::{PendingConfig, SwapfileConfig, ZramConfig};
use xzram::recommend::link::{optimize_linked, recommended_zram_shell};
use xzram::recommend::link_types::{LinkedAnchor, LinkedOptimizeContext};
use xzram::recommend::types::RecommendProfile;
use xzram::sysctl::SysctlValues;

fn ctx_8g() -> LinkedOptimizeContext {
    LinkedOptimizeContext {
        profile: RecommendProfile::Conservative,
        mem_total_kb: 8 * 1024 * 1024,
        has_active_zram: false,
        has_disk_swap: false,
        hibernate_blocks_zram: false,
        etc_writable: true,
        immutable_os: false,
    }
}

fn zram(size: &str, priority: i32) -> ZramConfig {
    ZramConfig {
        device: "zram0".into(),
        zram_size: Some(size.into()),
        zram_resident_limit: None,
        compression_algorithm: Some("zstd".into()),
        swap_priority: Some(priority),
        fs_type: None,
        mount_point: None,
    }
}

#[test]
fn clamps_fatal_sysctl() {
    let seed = PendingConfig {
        sysctl: Some(SysctlValues {
            swappiness: Some(999),
            watermark_boost_factor: Some(0),
            watermark_scale_factor: Some(125),
            page_cluster: Some(99),
        }),
        ..Default::default()
    };
    let out = optimize_linked(LinkedAnchor::Sysctl, seed, &ctx_8g());
    let sc = out.pending.sysctl.expect("sysctl");
    assert_eq!(sc.swappiness, Some(200));
    assert_eq!(sc.page_cluster, Some(8));
    assert!(!out.adjustments.is_empty());
}

#[test]
fn invalid_zram_size_replaced() {
    let seed = PendingConfig { zram: Some(zram("ram\n]", 100)), ..Default::default() };
    let out = optimize_linked(LinkedAnchor::ZramSize, seed, &ctx_8g());
    let z = out.pending.zram.expect("zram");
    assert_eq!(z.zram_size.as_deref(), Some("min(ram / 2, 4096)"));
    assert!(out.pending.sysctl.is_some());
}

#[test]
fn priority_inversion_fixed_on_overflow() {
    let seed = PendingConfig {
        zram: Some(zram("ram / 2", 5)),
        swapfile: Some(SwapfileConfig { path: "/swap/swapfile".into(), size_mb: 2048, priority: 50 }),
        ..Default::default()
    };
    let out = optimize_linked(LinkedAnchor::ZramPriority, seed, &ctx_8g());
    let z = out.pending.zram.expect("zram");
    let sf = out.pending.swapfile.expect("swap");
    assert!(z.swap_priority.unwrap() > sf.priority);
}

#[test]
fn anchor_names_roundtrip() {
    for a in [
        LinkedAnchor::ZramSize,
        LinkedAnchor::ZramAlgo,
        LinkedAnchor::ZramPriority,
        LinkedAnchor::Sysctl,
        LinkedAnchor::SwapfileCreate,
        LinkedAnchor::SwapfileResize,
        LinkedAnchor::SwapfileRemove,
    ] {
        assert_eq!(LinkedAnchor::parse(a.as_str()), Some(a));
    }
    assert_eq!(LinkedAnchor::parse("zram"), None);
}

#[test]
fn shell_follows_profile() {
    let z = recommended_zram_shell(RecommendProfile::Performance, 16 * 1024 * 1024);
    assert_eq!(z.device, "zram0");
    assert_eq!(z.zram_size.as_deref(), Some("ram"));
    assert_eq!(z.zram_resident_limit.as_deref(), Some("ram / 2"));
}

#[test]
fn blocked_host_still_normalizes() {
    let ctx = LinkedOptimizeContext { etc_writable: false, ..ctx_8g() };
    let seed = PendingConfig { zram: Some(zram("ram\n]", 100)), ..Default::default() };
    let out = optimize_linked(LinkedAnchor::ZramSize, seed, &ctx);
    assert!(out.adjustments[0].starts_with("Staging is blocked on this host"));
    assert_eq!(out.pending.zram.unwrap().zram_size.as_deref(), Some("min(ram / 2, 4096)"));
}

#[test]
fn hibernation_clears_zram_staging() {
    let ctx = LinkedOptimizeContext { hibernate_blocks_zram: true, ..ctx_8g() };
    let seed = PendingConfig { zram: Some(zram("ram / 2", 100)), ..Default::default() };
    let out = optimize_linked(LinkedAnchor::SwapfileRemove, seed, &ctx);
    assert!(out.pending.zram.is_none());
    assert_eq!(
        out.adjustments[0],
        "Hibernation resume uses zram; zram staging cleared (use disk swap for resume)."
    );
}
