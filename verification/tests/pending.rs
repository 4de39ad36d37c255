use xzram::apply::engine::{apply, apply_pending};
use xzram::apply::pending::{merge_pending, merge_sysctl, pending_is_empty, stage};
use xzram::apply::types::{ApplyRequest, PendingConfig, SwapfileConfig, SwapfileResizeConfig, ZramConfig};
use xzram::apply::engine::ApplyAction;
use xzram::error::XzramError;
use xzram::sysctl::SysctlValues;

fn zram(size: Option<&str>, algo: Option<&str>, pri: Option<i32>) -> ZramConfig {
    ZramConfig {
        device: "zram0".into(),
        zram_size: size.map(|s| s.to_string()),
        zram_resident_limit: None,
        compression_algorithm: algo.map(|s| s.to_string()),
        swap_priority: pri,
        fs_type: None,
        mount_point: None,
    }
}

fn merge_zram_case() {
    let mut current = PendingConfig::default();
    let partial = PendingConfig { zram: Some(zram(Some("512"), Some("zstd"), Some(100))), ..Default::default() };
    merge_pending(&mut current, &partial);
    assert!(current.zram.is_some());
    assert!(!current.disable_zram);
}

fn disable_clears_case() {
    let mut current = PendingConfig { zram: Some(zram(None, None, None)), ..Default::default() };
    merge_pending(&mut current, &PendingConfig { disable_zram: true, ..Default::default() });
    assert!(current.disable_zram);
    assert!(current.zram.is_none());
}

fn merge_sysctl_case() {
    let merged = merge_sysctl(
        Some(&SysctlValues {
            swappiness: Some(60),
            watermark_boost_factor: None,
            watermark_scale_factor: None,
            page_cluster: None,
        }),
        &SysctlValues {
            swappiness: None,
            watermark_boost_factor: Some(0),
            watermark_scale_factor: Some(125),
            page_cluster: None,
        },
    );
    assert_eq!(merged.swappiness, Some(60));
    assert_eq!(merged.watermark_boost_factor, Some(0));
    assert_eq!(merged.watermark_scale_factor, Some(125));
}

#[test]
fn pending_pending_merge_zram() {
    merge_zram_case();
}

#[test]
fn pending_pending_disable_clears_zram() {
    disable_clears_case();
}

#[test]
fn pending_pending_is_empty_default() {
    assert!(pending_is_empty(&PendingConfig::default()));
}

#[test]
fn pending_merge_sysctl_values() {
    merge_sysctl_case();
}

#[test]
fn apply_pending_merge_zram() {
    merge_zram_case();
}

#[test]
fn apply_pending_disable_clears_zram() {
    disable_clears_case();
}

#[test]
fn apply_pending_is_empty_default() {
    assert!(pending_is_empty(&PendingConfig::default()));
}

#[test]
fn apply_merge_sysctl_values() {
    merge_sysctl_case();
}

#[test]
fn staging_twice_keeps_one_swapfile_operation() {
    let first = stage(None, &PendingConfig {
        swapfile: Some(SwapfileConfig { path: "/swap/swapfile".into(), size_mb: 1024, priority: 10 }),
        ..Default::default()
    });
    let second = stage(Some(first), &PendingConfig {
        swapfile_resize: Some(SwapfileResizeConfig { path: "/swap/swapfile".into(), size_mb: 2048 }),
        ..Default::default()
    });
    assert!(second.swapfile.is_none());
    assert_eq!(second.swapfile_resize.as_ref().unwrap().size_mb, 2048);
    let third = stage(Some(second), &PendingConfig { remove_swapfile: Some("/swap/swapfile".into()), ..Default::default() });
    assert!(third.swapfile.is_none());
    assert!(third.swapfile_resize.is_none());
    assert_eq!(third.remove_swapfile.as_deref(), Some("/swap/swapfile"));
}

#[test]
fn staging_merges_sysctl_knobs() {
    let first = stage(None, &PendingConfig {
        sysctl: Some(SysctlValues { swappiness: Some(60), watermark_boost_factor: None, watermark_scale_factor: None, page_cluster: None }),
        ..Default::default()
    });
    let second = stage(Some(first), &PendingConfig {
        sysctl: Some(SysctlValues { swappiness: None, watermark_boost_factor: None, watermark_scale_factor: None, page_cluster: Some(0) }),
        ..Default::default()
    });
    let sc = second.sysctl.unwrap();
    assert_eq!(sc.swappiness, Some(60));
    assert_eq!(sc.page_cluster, Some(0));
}

#[test]
fn staging_zram_after_disable_reenables() {
    let first = stage(None, &PendingConfig { disable_zram: true, ..Default::default() });
    let second = stage(Some(first), &PendingConfig { zram: Some(zram(Some("ram"), None, None)), ..Default::default() });
    assert!(!second.disable_zram);
    assert!(second.zram.is_some());
}

#[test]
fn merging_is_idempotent_on_concrete_values() {
    let partial = PendingConfig { zram: Some(zram(Some("ram"), Some("zstd"), Some(100))), disable_zram: true, ..Default::default() };
    let once = stage(None, &partial);
    let twice = stage(Some(once.clone()), &partial);
    assert_eq!(once.zram.as_ref().unwrap().zram_size, twice.zram.as_ref().unwrap().zram_size);
    assert_eq!(once.disable_zram, twice.disable_zram);
    assert!(!twice.disable_zram);
}

#[test]
fn apply_pending_refuses_missing_and_empty() {
    match apply_pending(None, false) {
        Err(XzramError::NotFound(m)) => assert_eq!(m, "No pending configuration to apply"),
        _ => panic!("expected not found"),
    }
    match apply_pending(Some(PendingConfig::default()), false) {
        Err(XzramError::Validation(m)) => assert!(m.contains("empty")),
        _ => panic!("expected validation error"),
    }
}

#[test]
fn apply_pending_plans_every_step() {
    let pending = PendingConfig {
        zram: Some(zram(Some("ram"), Some("zstd"), Some(100))),
        swapfile_resize: Some(SwapfileResizeConfig { path: "/swap/swapfile".into(), size_mb: 2048 }),
        sysctl: Some(SysctlValues { swappiness: Some(180), watermark_boost_factor: None, watermark_scale_factor: None, page_cluster: None }),
        ..Default::default()
    };
    let plan = apply_pending(Some(pending), true).unwrap();
    assert!(matches!(plan.actions[0], ApplyAction::SnapshotBeforeApply));
    assert!(matches!(plan.actions[1], ApplyAction::ConfigureZram(_)));
    assert!(matches!(plan.actions[2], ApplyAction::ResizeSwapfile { .. }));
    assert!(matches!(plan.actions[3], ApplyAction::SetSysctl(_)));
    assert!(matches!(plan.actions[4], ApplyAction::FinalizeZramTools));
    assert!(matches!(plan.actions[5], ApplyAction::ClearPending));
    assert_eq!(plan.messages, vec![
        "Applied zram config for zram0".to_string(),
        "Resized swapfile /swap/swapfile".to_string(),
        "Applied sysctl values".to_string(),
        "Disabled zramswap.service".to_string(),
        "Archived /etc/default/zramswap to /etc/default/zramswap.xzram.bak".to_string(),
    ]);
}

#[test]
fn apply_request_disable_wins_and_remove_wins() {
    let request = ApplyRequest {
        zram: Some(zram(Some("ram"), None, None)),
        swapfile: Some(SwapfileConfig { path: "/swap/swapfile".into(), size_mb: 1, priority: 10 }),
        disable_zram: true,
        remove_swapfile: Some("/swap/old".into()),
    };
    let plan = apply(&request);
    assert_eq!(plan.actions.len(), 2);
    assert!(matches!(plan.actions[0], ApplyAction::DisableZram));
    assert!(matches!(&plan.actions[1], ApplyAction::RemoveSwapfile(p) if p == "/swap/old"));
    assert_eq!(plan.messages, vec!["Disabled zram configuration".to_string(), "Removed swapfile /swap/old".to_string()]);
}
