use xzram::detect::{DetectionReport, DistroFamily, DistroInfo, PackageManager, ZramBackend};
use xzram::doctor::{doctor, DoctorFacts, IssueSeverity};
use xzram::status::{MemoryInfo, StatusReport, SwapEntry, ZramDevice};

fn detection(root_fs: Option<&str>) -> DetectionReport {
    DetectionReport {
        distro: DistroInfo {
            id: "fedora".into(),
            id_like: vec![],
            family: DistroFamily::Fedora,
            version_id: None,
            pretty_name: None,
        },
        package_manager: PackageManager::Dnf,
        init_system: "systemd".into(),
        zram_backend: ZramBackend::SystemdZramGenerator,
        zram_generator_installed: true,
        zram_generator_config: Some("/etc/systemd/zram-generator.conf".into()),
        root_filesystem: root_fs.map(|s| s.to_string()),
        etc_writable: true,
        immutable_os: false,
    }
}

fn zram0() -> ZramDevice {
    ZramDevice {
        name: "zram0".into(),
        algorithm: "zstd".into(),
        disk_size_bytes: 1 << 30,
        data_bytes: 0,
        compressed_bytes: 0,
        total_bytes: 0,
        streams: 4,
        mount_point: "[SWAP]".into(),
    }
}

fn status(swaps: Vec<SwapEntry>) -> StatusReport {
    StatusReport {
        swaps,
        zram_devices: vec![zram0()],
        memory: MemoryInfo { mem_total_kb: 8 << 20, mem_available_kb: 4 << 20, swap_total_kb: 0, swap_free_kb: 0 },
    }
}

fn facts(has_managed_swapfile: bool, zswap: Option<bool>) -> DoctorFacts {
    DoctorFacts {
        zramswap_service_active: false,
        zswap_enabled: zswap,
        hibernation_blocks_zram: false,
        has_managed_swapfile,
        swapfile_statuses: vec![],
        partition_issues: vec![],
    }
}

fn codes(detection: &DetectionReport, status: &StatusReport, facts: DoctorFacts) -> Vec<String> {
    doctor(detection, status, facts).issues.into_iter().map(|i| i.code).collect()
}

#[test]
fn btrfs_root_tip_skipped_when_swapfiles_configured() {
    let with_swapfile = codes(&detection(Some("btrfs")), &status(vec![]), facts(true, None));
    assert!(!with_swapfile.iter().any(|c| c == "btrfs_root"));
    let without = codes(&detection(Some("btrfs")), &status(vec![]), facts(false, None));
    assert!(without.iter().any(|c| c == "btrfs_root"));
}

#[test]
fn btrfs_root_tip_emitted_without_swapfiles_on_empty_list() {
    let issues = codes(&detection(Some("ext4")), &status(vec![]), facts(false, None));
    assert!(!issues.iter().any(|c| c == "btrfs_root"));
}

#[test]
fn healthy_system_has_no_issues() {
    let report = doctor(&detection(Some("ext4")), &status(vec![]), facts(false, Some(false)));
    assert!(report.healthy);
    assert!(report.issues.is_empty());
}

#[test]
fn zswap_with_zram_is_an_error_and_unhealthy() {
    let report = doctor(&detection(Some("ext4")), &status(vec![]), facts(false, Some(true)));
    assert!(!report.healthy);
    let codes: Vec<&str> = report.issues.iter().map(|i| i.code.as_str()).collect();
    assert_eq!(codes, vec!["zswap_enabled", "zram_zswap_conflict"]);
    assert!(matches!(report.issues[1].severity, IssueSeverity::Error));
}

#[test]
fn priority_inversion_reports_both_priorities() {
    let swaps = vec![
        SwapEntry { name: "/dev/zram0".into(), swap_type: "partition".into(), size_bytes: 0, used_bytes: 0, priority: 5 },
        SwapEntry { name: "/swapfile".into(), swap_type: "file".into(), size_bytes: 0, used_bytes: 0, priority: 10 },
    ];
    let report = doctor(&detection(Some("ext4")), &status(swaps), facts(false, None));
    assert!(report.healthy);
    assert_eq!(report.issues.len(), 1);
    assert_eq!(report.issues[0].code, "priority_inverted");
    assert_eq!(report.issues[0].message, "Disk swap priority (10) >= zram priority (5)");
}

#[test]
fn legacy_and_setup_warnings() {
    let mut d = detection(None);
    d.init_system = "openrc".into();
    d.zram_backend = ZramBackend::ZramTools;
    d.etc_writable = false;
    let issues = codes(&d, &status(vec![]), facts(false, None));
    assert_eq!(issues, vec!["non_systemd", "immutable_etc", "zram_tools_legacy"]);
}
