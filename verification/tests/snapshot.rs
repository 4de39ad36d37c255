use xzram::apply::types::{PendingConfig, SwapfileConfig, ZramConfig};
use xzram::error::XzramError;
use xzram::snapshot::create::{
    build_snapshot_meta, capture_system_state, chrono_like_id, default_label, duplicate_app_open, human_date,
    legacy_backup_importable, pending_summary, snapshot_id,
};
use xzram::snapshot::index::{delete_snapshot, get_snapshot, latest_pre_apply_id, prune_snapshots};
use xzram::snapshot::paths::{index_path, snapshots_root};
use xzram::snapshot::restore::{restore_snapshot, rollback, RestoreFacts, RestoreStep};
use xzram::snapshot::types::{SnapshotMeta, SnapshotTrigger};

fn sample_pending() -> PendingConfig {
    PendingConfig {
        zram: Some(ZramConfig {
            device: "zram0".into(),
            zram_size: Some("4096".into()),
            zram_resident_limit: None,
            compression_algorithm: Some("zstd".into()),
            swap_priority: Some(100),
            fs_type: None,
            mount_point: None,
        }),
        swapfile: Some(SwapfileConfig { path: "/swap/swapfile".into(), size_mb: 8192, priority: 10 }),
        ..Default::default()
    }
}

fn summary_case() {
    let summary = pending_summary(&sample_pending());
    assert!(summary.contains("ZRAM"));
    assert!(summary.contains("/swap/swapfile"));
}

#[test]
fn snapshot_pending_summary_describes_changes() {
    summary_case();
}

#[test]
fn create_pending_summary_describes_changes() {
    summary_case();
}

fn meta(id: &str, trigger: SnapshotTrigger, fstab: Option<&[u8]>) -> SnapshotMeta {
    let contents: Vec<Option<Vec<u8>>> = vec![None, fstab.map(|b| b.to_vec()), None, None];
    let captured = capture_system_state(&contents, vec![], vec![]);
    let mut m = build_snapshot_meta(trigger, Some("label"), None, captured, 1, 2, "0.1.0");
    m.id = id.into();
    m
}

#[test]
fn state_hash_is_sha256_of_named_contents() {
    let contents: Vec<Option<Vec<u8>>> = vec![None, Some(b"test\n".to_vec()), None, None];
    let captured = capture_system_state(&contents, vec![], vec![]);
    assert_eq!(captured.state_hash, "5c0aa4549da7b672088b85e930b64750d8a7aa5ec5b52181b50a6108c9786663");
    assert!(captured.artifacts.fstab.present);
    assert_eq!(captured.artifacts.fstab.filename.as_deref(), Some("fstab"));
    assert!(!captured.artifacts.sysctl.present);
    let empty = capture_system_state(&vec![None, None, None, None], vec![], vec![]);
    assert_eq!(empty.state_hash, "e3b0c44298fc1c149afbf4c8996fb92427ae41e4649b934ca495991b7852b855");
}

#[test]
fn app_open_dedup_compares_hashes() {
    let m = meta("a", SnapshotTrigger::AppOpen, Some(b"test\n"));
    assert!(duplicate_app_open(SnapshotTrigger::AppOpen, Some(&m), &m.state_hash));
    assert!(!duplicate_app_open(SnapshotTrigger::Manual, Some(&m), &m.state_hash));
    assert!(!duplicate_app_open(SnapshotTrigger::AppOpen, Some(&m), "other"));
    assert!(!duplicate_app_open(SnapshotTrigger::AppOpen, None, &m.state_hash));
}

#[test]
fn ids_dates_and_labels() {
    assert_eq!(chrono_like_id(5, 7), "00000005000000007");
    assert_eq!(snapshot_id(5, 7, "manual"), "00000005000000007-manual");
    assert_eq!(human_date(0), "01 01 1970, 00:00 UTC");
    assert_eq!(default_label(SnapshotTrigger::Manual, None, "d"), "Manual snapshot — d");
    assert_eq!(default_label(SnapshotTrigger::AppOpen, None, "d"), "Startup baseline — d");
    assert_eq!(default_label(SnapshotTrigger::PreApply, Some(&PendingConfig::default()), "d"), "Before apply — d");
    let with = default_label(SnapshotTrigger::PreApply, Some(&sample_pending()), "d");
    assert_eq!(with, format!("Before apply — {}", pending_summary(&sample_pending())));
}

#[test]
fn built_meta_records_trigger_and_time() {
    let captured = capture_system_state(&vec![None, None, None, None], vec![], vec![]);
    let m = build_snapshot_meta(SnapshotTrigger::PreApply, None, Some(&sample_pending()), captured, 60, 0, "1.2.3");
    assert_eq!(m.id, "00000060000000000-pre_apply");
    assert_eq!(m.created_at, "60");
    assert_eq!(m.xzram_version, "1.2.3");
    assert_eq!(m.pending_summary.as_deref(), Some(pending_summary(&sample_pending()).as_str()));
    assert!(legacy_backup_importable(true, false, true, false));
    assert!(!legacy_backup_importable(false, true, true, true));
}

#[test]
fn trigger_names_roundtrip() {
    for t in [SnapshotTrigger::AppOpen, SnapshotTrigger::PreApply, SnapshotTrigger::Manual] {
        assert_eq!(SnapshotTrigger::parse(t.as_str()).unwrap(), t);
    }
    match SnapshotTrigger::parse("nightly") {
        Err(XzramError::Validation(m)) => assert_eq!(m, "unknown snapshot trigger: nightly"),
        _ => panic!("expected validation error"),
    }
}

#[test]
fn delete_and_prune_in_index() {
    let mut index = vec![
        meta("c", SnapshotTrigger::Manual, Some(b"c")),
        meta("b", SnapshotTrigger::PreApply, Some(b"b")),
        meta("a", SnapshotTrigger::Manual, Some(b"a")),
    ];
    assert_eq!(get_snapshot(index.clone(), "b").unwrap().id, "b");
    assert!(matches!(get_snapshot(index.clone(), "zz"), Err(XzramError::NotFound(_))));
    assert_eq!(latest_pre_apply_id(&index).unwrap(), "b");
    assert_eq!(rollback(&index).unwrap(), "b");
    assert!(matches!(prune_snapshots(&mut index, 0), Err(XzramError::Validation(_))));
    assert_eq!(index.len(), 3);
    let removed = prune_snapshots(&mut index, 1).unwrap();
    assert_eq!(removed, vec!["b".to_string(), "a".to_string()]);
    assert_eq!(index.len(), 1);
    assert_eq!(index[0].id, "c");
    match delete_snapshot(&mut index, "nope") {
        Err(XzramError::NotFound(m)) => assert_eq!(m, "snapshot not found: nope"),
        _ => panic!("expected not found"),
    }
    delete_snapshot(&mut index, "c").unwrap();
    assert!(index.is_empty());
    assert!(matches!(latest_pre_apply_id(&index), Err(XzramError::NotFound(_))));
}

#[test]
fn store_paths() {
    assert_eq!(snapshots_root("/var/lib/xzram"), "/var/lib/xzram/snapshots");
    assert_eq!(index_path("/var/lib/xzram"), "/var/lib/xzram/snapshots/index.json");
}

fn facts(dir_exists: bool) -> RestoreFacts {
    RestoreFacts {
        snapshot_dir: "/data/snapshots/a".into(),
        etc_root: "/etc".into(),
        dir_exists,
        backup_exists: vec![false, true, false, false],
        target_exists: vec![false, true, false, false],
        current_swapfiles: vec![],
        snapshot_swapfile_exists: vec![],
        zram_backup: None,
        fstab_backup: Some("/dev/sda1 / ext4 defaults 0 1\n".into()),
        fstab_current: Some("/dev/sda1 / ext4 defaults 0 1\n".into()),
    }
}

#[test]
fn restore_needs_snapshot_directory() {
    let m = meta("a", SnapshotTrigger::Manual, Some(b"x"));
    match restore_snapshot(&m, &facts(false)) {
        Err(XzramError::NotFound(msg)) => assert_eq!(msg, "snapshot directory missing: a"),
        _ => panic!("expected not found"),
    }
}

#[test]
fn restore_copies_fstab_and_reloads() {
    let m = meta("a", SnapshotTrigger::Manual, Some(b"x"));
    let plan = restore_snapshot(&m, &facts(true)).unwrap();
    assert!(plan.steps.iter().any(|s| matches!(s, RestoreStep::CopyFile { from, to }
        if from == "/data/snapshots/a/fstab" && to == "/etc/fstab")));
    assert!(plan.steps.iter().any(|s| matches!(s, RestoreStep::DaemonReload)));
    assert!(!plan.steps.iter().any(|s| matches!(s, RestoreStep::ReloadSysctl)));
    assert!(plan.messages.iter().any(|m| m == "Reloaded systemd"));
}

#[test]
fn summary_is_empty_only_when_nothing_is_pending() {
    assert_eq!(pending_summary(&PendingConfig::default()), "");
    let only_disable = PendingConfig { disable_zram: true, ..Default::default() };
    assert_eq!(pending_summary(&only_disable), "disable ZRAM");
    assert_eq!(pending_summary(&sample_pending()), "ZRAM (zstd, 4096), swapfile /swap/swapfile");
}

#[test]
fn rollback_without_pre_apply_snapshot_is_not_found() {
    let index = vec![meta("c", SnapshotTrigger::Manual, Some(b"c"))];
    match rollback(&index) {
        Err(XzramError::NotFound(m)) => assert_eq!(m, "no pre_apply snapshot found"),
        other => panic!("unexpected: {other:?}"),
    }
}
