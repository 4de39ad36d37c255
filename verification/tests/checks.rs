use xzram::checks::{
    algorithm_mismatch, cpu_core_count, hibernation_zram_conflict, max_swap_priority, parse_major_minor,
    priority_inverted, resume_device, zram_zswap_conflict, zswap_enabled,
};
use xzram::status::{SwapEntry, ZramDevice};

fn entry(name: &str, swap_type: &str, priority: i32) -> SwapEntry {
    SwapEntry { name: name.into(), swap_type: swap_type.into(), size_bytes: 0, used_bytes: 0, priority }
}

#[test]
fn algorithm_mismatch_detects_lzo_vs_zstd() {
    assert!(algorithm_mismatch("zstd", "lzo-rle"));
    assert!(!algorithm_mismatch("zstd", "zstd"));
}

#[test]
fn priority_inverted_when_disk_higher() {
    let swaps = vec![entry("/dev/zram0", "partition", 100), entry("/swapfile", "file", 100)];
    assert!(priority_inverted(&swaps));
}

#[test]
fn parse_major_minor_works() {
    assert_eq!(parse_major_minor("259:5"), Some((259, 5)));
    assert_eq!(parse_major_minor("invalid"), None);
}

#[test]
fn algorithm_mismatch_ignores_case_and_blank_values() {
    assert!(!algorithm_mismatch("ZSTD", "zstd"));
    assert!(!algorithm_mismatch("", "lz4"));
    assert!(!algorithm_mismatch("zstd", ""));
}

#[test]
fn priority_order_is_fine_when_zram_higher_or_alone() {
    let swaps = vec![entry("/dev/zram0", "partition", 100), entry("/swapfile", "file", 10)];
    assert!(!priority_inverted(&swaps));
    assert_eq!(max_swap_priority(&swaps, true), Some(100));
    assert_eq!(max_swap_priority(&swaps, false), Some(10));
    assert!(!priority_inverted(&[entry("/dev/zram0", "partition", 5)]));
}

#[test]
fn zswap_parameter_parses_y_and_n() {
    assert_eq!(zswap_enabled(Some("Y\n")), Some(true));
    assert_eq!(zswap_enabled(Some("N")), Some(false));
    assert_eq!(zswap_enabled(None), None);
}

#[test]
fn zram_zswap_conflict_needs_both() {
    let dev = ZramDevice {
        name: "zram0".into(),
        algorithm: "zstd".into(),
        disk_size_bytes: 1,
        data_bytes: 0,
        compressed_bytes: 0,
        total_bytes: 0,
        streams: 1,
        mount_point: "[SWAP]".into(),
    };
    assert!(zram_zswap_conflict(&[dev.clone()], Some(true)));
    assert!(!zram_zswap_conflict(&[dev], Some(false)));
    assert!(!zram_zswap_conflict(&[], Some(true)));
}

#[test]
fn resume_on_zram_is_a_conflict() {
    assert_eq!(resume_device("252:0\n"), Some((252, 0)));
    assert!(hibernation_zram_conflict(Some("252:0"), Some("zram0")));
    assert!(!hibernation_zram_conflict(Some("8:2"), Some("sda2")));
    assert!(!hibernation_zram_conflict(None, Some("zram0")));
}

#[test]
fn cpu_cores_counted_from_processor_lines() {
    assert_eq!(cpu_core_count(Some("processor\t: 0\nmodel name\t: x\nprocessor\t: 1\n")), 2);
    assert_eq!(cpu_core_count(Some("")), 1);
    assert_eq!(cpu_core_count(None), 1);
}
