use xzram::status::{
    detect_zram_mount, format_bytes, is_zram_block_name, parse_comp_algorithm, parse_meminfo, parse_mm_stat,
    parse_proc_swaps, parse_sysfs_u64, sort_devices_by_name, status, zram_device, ZramDevice,
};

#[test]
fn parse_swaps_line() {
    let content = "Filename\t\t\t\tType\t\tSize\t\tUsed\t\tPriority\n/dev/zram0                              partition\t4194300\t\t0\t\t100\n";
    let swaps = parse_proc_swaps(content);
    assert_eq!(swaps.len(), 1);
    assert_eq!(swaps[0].name, "/dev/zram0");
    assert_eq!(swaps[0].swap_type, "partition");
    assert_eq!(swaps[0].size_bytes, 4194300 * 1024);
    assert_eq!(swaps[0].used_bytes, 0);
    assert_eq!(swaps[0].priority, 100);
}

#[test]
fn format_bytes_works() {
    assert_eq!(format_bytes(1024), "1.0 KiB");
    assert_eq!(format_bytes(0), "0 B");
}

#[test]
fn format_bytes_scales_units() {
    assert_eq!(format_bytes(1023), "1023 B");
    assert_eq!(format_bytes(1536), "1.5 KiB");
    assert_eq!(format_bytes(8 * 1024 * 1024 * 1024), "8.0 GiB");
}

#[test]
fn meminfo_fields_in_kib() {
    let m = parse_meminfo("MemTotal:       16000000 kB\nMemAvailable:    8000000 kB\nSwapTotal: 100 kB\nSwapFree: 50 kB\n");
    assert_eq!(m.mem_total_kb, 16000000);
    assert_eq!(m.mem_available_kb, 8000000);
    assert_eq!(m.swap_total_kb, 100);
    assert_eq!(m.swap_free_kb, 50);
}

#[test]
fn sysfs_values() {
    assert_eq!(parse_comp_algorithm("[zstd] lzo lz4\n"), "zstd");
    assert_eq!(parse_comp_algorithm("lzo lzo-rle [zstd] lz4\n"), "lzo");
    assert_eq!(parse_comp_algorithm(""), "unknown");
    assert_eq!(parse_sysfs_u64(" 4294967296\n"), Some(4294967296));
    assert_eq!(parse_sysfs_u64("x"), None);
    assert_eq!(parse_mm_stat("100 40 60 0 0 0 0 0 0"), (100, 40, 60, 0));
    assert!(is_zram_block_name("zram0"));
    assert!(is_zram_block_name("zram-control"));
    assert!(!is_zram_block_name("sda"));
}

#[test]
fn zram_mount_from_swapon_or_initstate() {
    assert_eq!(detect_zram_mount(Some("/dev/zram0 partition 4G 0B 100\n"), "zram0", Some("1")), "[SWAP]");
    assert_eq!(detect_zram_mount(Some(""), "zram0", Some("1\n")), "[SWAP]");
    assert_eq!(detect_zram_mount(Some("/dev/zram0 weird\n"), "zram0", None), "weird");
    assert_eq!(detect_zram_mount(None, "zram0", Some("0")), "");
}

#[test]
fn zram_device_and_sorting() {
    let d = zram_device("zram1", "[zstd] lz4", "1024", "10 5 6 0 4", "[SWAP]".into()).unwrap();
    assert_eq!(d.algorithm, "zstd");
    assert_eq!(d.disk_size_bytes, 1024);
    assert_eq!((d.data_bytes, d.compressed_bytes, d.total_bytes, d.streams), (10, 5, 6, 4));
    assert!(zram_device("zram2", "", "junk", "", String::new()).is_err());
    let d0 = ZramDevice { name: "zram0".into(), ..d.clone() };
    let sorted = sort_devices_by_name(vec![d, d0]);
    assert_eq!(sorted[0].name, "zram0");
    assert_eq!(sorted[1].name, "zram1");
}

#[test]
fn status_collects_all() {
    let r = status("Filename Type Size Used Priority\n/swapfile file 10 1 -2\n", vec![], "MemTotal: 4 kB\n");
    assert_eq!(r.swaps.len(), 1);
    assert_eq!(r.swaps[0].priority, -2);
    assert_eq!(r.memory.mem_total_kb, 4);
}
