use xzram::error::XzramError;
use xzram::migrate::{migrate_from_zram_tools, parse_zramswap, zram_size_expression, zramswap_path};

#[test]
fn migrate_parses_percent_and_algo() {
    let (algo, percent, size, priority) = parse_zramswap("# comment\nALGO=lz4\nPERCENT=25\n");
    assert_eq!(algo, "lz4");
    assert_eq!(percent, Some(25));
    assert_eq!(size, None);
    assert_eq!(priority, None);
    assert_eq!(zram_size_expression(percent, size), "ram / 100 * 25");
}

#[test]
fn migrate_prefers_size_when_percent_absent() {
    let (algo, percent, size, priority) = parse_zramswap("ALGO=zstd\nSIZE=512\nPRIORITY=100\n");
    assert_eq!(algo, "zstd");
    assert_eq!(percent, None);
    assert_eq!(size, Some(512));
    assert_eq!(priority, Some(100));
    assert_eq!(zram_size_expression(percent, size), "512");
}

#[test]
fn migrate_percent_wins_over_size() {
    assert_eq!(zram_size_expression(Some(40), Some(512)), "ram / 100 * 40");
}

#[test]
fn migrate_defaults_when_nothing_set() {
    let (algo, percent, size, priority) = parse_zramswap("");
    assert_eq!(algo, "zstd");
    assert_eq!((percent, size, priority), (None, None, None));
    assert_eq!(zramswap_path("/etc"), "/etc/default/zramswap");
}

#[test]
fn migrate_stages_zram_config() {
    let pending = migrate_from_zram_tools(Some("ALGO=lz4\nPERCENT=50\nPRIORITY=90\n")).unwrap();
    let zram = pending.zram.unwrap();
    assert_eq!(zram.device, "zram0");
    assert_eq!(zram.zram_size.as_deref(), Some("ram / 100 * 50"));
    assert_eq!(zram.compression_algorithm.as_deref(), Some("lz4"));
    assert_eq!(zram.swap_priority, Some(90));
    match migrate_from_zram_tools(None) {
        Err(XzramError::NotFound(m)) => assert_eq!(m, "zram-tools config not found at /etc/default/zramswap"),
        _ => panic!("expected not found"),
    }
}
