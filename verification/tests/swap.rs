use xzram::error::XzramError;
use xzram::status::SwapEntry;
use xzram::swap_partition::{
    check_missing_swap_partitions, extract_uuid, fstab_swap_partitions, list_swaps_merged, swap_partition, SwapSource,
};
use xzram::swapfile_btrfs::{
    check_nodatacow, create_allocated_swapfile, ensure_ready_for_swapfile, is_btrfs_path, lsattr_has_nodatacow, mkswapfile_size_arg,
    parent_directory, prepare_actions, status_message, AllocationStep, NodatacowProbe,
};

#[test]
fn extract_uuid_parses() {
    assert_eq!(extract_uuid("UUID=abc-123"), Some("abc-123".to_string()));
    assert_eq!(extract_uuid("/dev/sda2"), None);
}

#[test]
fn lsattr_detects_nodatacow_flag() {
    assert!(!lsattr_has_nodatacow("--------------e-- /tmp/swap\n"));
    assert!(lsattr_has_nodatacow("----C--------e-- /tmp/swap\n"));
}

#[test]
fn status_message_non_btrfs() {
    let msg = status_message(false, true, true, false, None, "/tmp");
    assert!(msg.contains("does not require"));
}

#[test]
fn parent_of_swapfile_path() {
    assert_eq!(parent_directory("/swap/swapfile").unwrap(), "/swap");
    assert!(matches!(parent_directory("swapfile"), Err(XzramError::Validation(_))));
}

fn probe(fs: &str, parent_nodatacow: bool) -> NodatacowProbe {
    NodatacowProbe {
        parent_exists: true,
        file_exists: false,
        filesystem: Ok(fs.into()),
        parent_nodatacow: Some(parent_nodatacow),
        file_nodatacow: None,
    }
}

#[test]
fn nodatacow_status_on_btrfs() {
    let bad = check_nodatacow("/swap/swapfile", probe("btrfs", false)).unwrap();
    assert!(bad.on_btrfs);
    assert!(!bad.ready);
    assert_eq!(bad.message, "Parent directory /swap is missing nodatacow (chattr +C)");
    assert!(matches!(ensure_ready_for_swapfile(&bad), Err(XzramError::Validation(_))));
    let good = check_nodatacow("/swap/swapfile", probe("btrfs", true)).unwrap();
    assert!(good.ready);
    assert!(ensure_ready_for_swapfile(&good).is_ok());
    let ext4 = check_nodatacow("/swap/swapfile", probe("ext4", false)).unwrap();
    assert!(ext4.ready);
    assert!(!ext4.on_btrfs);
}

#[test]
fn swapfile_sizes() {
    assert_eq!(mkswapfile_size_arg(2048), "2048M");
    assert_eq!(prepare_actions(true, true, false, true, true), (true, false));
    assert_eq!(prepare_actions(false, true, false, true, false), (false, false));
    assert!(is_btrfs_path(Some("btrfs")));
    assert!(!is_btrfs_path(Some("ext4")));
    assert!(!is_btrfs_path(None));
}

#[test]
fn fstab_partitions_and_merge() {
    let fstab = "UUID=abc none swap sw,pri=5 0 0\n/swap/file none swap sw 0 0\n/dev/sdb1 none swap defaults 0 0\n";
    let parts = fstab_swap_partitions(fstab);
    assert_eq!(parts, vec![
        ("UUID=abc".to_string(), "sw,pri=5".to_string()),
        ("/dev/sdb1".to_string(), "defaults".to_string()),
    ]);
    let active = vec!["/dev/sdb1".to_string()];
    let p1 = swap_partition("/dev/sdb1", "defaults", "/dev/sdb1", &active);
    assert!(p1.active);
    assert_eq!(p1.priority, 10);
    let p2 = swap_partition("UUID=abc", "sw,pri=5", "/dev/sda9", &active);
    assert!(!p2.active);
    assert_eq!(p2.uuid.as_deref(), Some("abc"));
    assert_eq!(p2.priority, 5);
    let swaps = vec![SwapEntry { name: "/dev/sdb1".into(), swap_type: "partition".into(), size_bytes: 1, used_bytes: 0, priority: 10 }];
    let merged = list_swaps_merged(&swaps, &[p1.clone(), p2.clone()]);
    assert_eq!(merged.len(), 2);
    assert_eq!(merged[0].source, SwapSource::Active);
    assert_eq!(merged[1].name, "/dev/sda9");
    assert!(!merged[1].active);
    let issues = check_missing_swap_partitions(&[p1, p2], &[true, false]);
    assert_eq!(issues.len(), 1);
}

#[test]
fn allocation_plans() {
    let ready = check_nodatacow("/swap/swapfile", probe("ext4", false)).unwrap();
    let steps = create_allocated_swapfile("/swap/swapfile", 2, &ready, true, Some("ext4"), true).unwrap();
    assert_eq!(steps.len(), 3);
    assert!(matches!(&steps[0], AllocationStep::RemoveStale(p) if p == "/swap/swapfile"));
    assert!(matches!(&steps[1], AllocationStep::Allocate { path, bytes, mib } if path == "/swap/swapfile" && *bytes == 2 * 1024 * 1024 && *mib == 2));
    assert!(matches!(&steps[2], AllocationStep::Mkswap(p) if p == "/swap/swapfile"));
    let btrfs = check_nodatacow("/swap/swapfile", probe("btrfs", true)).unwrap();
    let steps = create_allocated_swapfile("/swap/swapfile", 2048, &btrfs, false, Some("btrfs"), true).unwrap();
    assert_eq!(steps.len(), 1);
    assert!(matches!(&steps[0], AllocationStep::BtrfsMkswapfile { size, .. } if size == "2048M"));
    match create_allocated_swapfile("/swap/swapfile", 0, &btrfs, false, None, false) {
        Err(XzramError::Validation(m)) => assert_eq!(m, "swapfile size must be greater than 0 MiB"),
        _ => panic!("expected validation error"),
    }
    let not_ready = check_nodatacow("/swap/swapfile", probe("btrfs", false)).unwrap();
    match create_allocated_swapfile("/swap/swapfile", 1, &not_ready, false, Some("btrfs"), true) {
        Err(XzramError::Validation(m)) => assert_eq!(
            m,
            "Parent directory /swap is missing nodatacow (chattr +C). Run: xzram swapfile prepare /swap/swapfile"
        ),
        _ => panic!("expected validation error"),
    }
}
