use xzram::backend::swapfile::{
    add_fstab_entry, fstab_line_matches_swapfile, parse_fstab_priority, parse_fstab_swapfiles,
    priority_for_path, remove_fstab_entry,
};
use xzram::backend::zram_generator::{configure, disabled_config, managed_config_path, show, upsert_device, BACKEND_NAME};
use xzram::backend::{available_zram_backend, ensure_zram_backend, zram_backend_warning};
use xzram::apply::types::ZramConfig;
use xzram::config::{ZramDeviceSection, ZramGeneratorConf};
use xzram::detect::ZramBackend;
use xzram::error::XzramError;

#[test]
fn parse_fstab_priority_parses_pri() {
    assert_eq!(parse_fstab_priority("defaults,pri=50"), 50);
    assert_eq!(parse_fstab_priority("defaults"), 10);
}

#[test]
fn fstab_line_match_is_exact() {
    assert!(fstab_line_matches_swapfile("/swap/swapfile none swap sw,pri=10 0 0", "/swap/swapfile"));
    assert!(!fstab_line_matches_swapfile("/swap/swapfile2 none swap sw,pri=10 0 0", "/swap/swapfile"));
    assert!(!fstab_line_matches_swapfile("# /swap/swapfile none swap sw,pri=10 0 0", "/swap/swapfile"));
}

#[test]
fn backend_name() {
    assert_eq!(BACKEND_NAME, "systemd-zram-generator");
}

#[test]
fn managed_path_joins_etc_root() {
    assert_eq!(managed_config_path("/tmp/etc"), "/tmp/etc/systemd/zram-generator.conf");
}

#[test]
fn fstab_priority_takes_first_pri_option() {
    assert_eq!(parse_fstab_priority("pri=abc,pri=7"), 10);
    assert_eq!(parse_fstab_priority("sw,pri=7,pri=9"), 7);
    assert_eq!(parse_fstab_priority("sw,pri=-3"), -3);
    assert_eq!(parse_fstab_priority(""), 10);
}

#[test]
fn fstab_swapfiles_skip_devices_and_comments() {
    let fstab = "# comment\n/dev/sda2 none swap sw 0 0\n/swap/swapfile none swap sw,pri=5 0 0\nUUID=x / btrfs defaults 0 0\n";
    let files = parse_fstab_swapfiles(fstab);
    assert_eq!(files.len(), 1);
    assert_eq!(files[0].path, "/swap/swapfile");
    assert_eq!(files[0].priority, 5);
    assert_eq!(priority_for_path(fstab, "/swap/swapfile"), 5);
    assert_eq!(priority_for_path(fstab, "/other"), 10);
}

#[test]
fn fstab_add_then_remove_drops_the_entry() {
    let fstab = "/dev/sda1 / ext4 defaults 0 1\n";
    let added = add_fstab_entry(fstab, "/swap/swapfile", 20).unwrap();
    assert_eq!(added, "/dev/sda1 / ext4 defaults 0 1\n\n/swap/swapfile none swap sw,pri=20 0 0\n");
    assert!(add_fstab_entry(&added, "/swap/swapfile", 20).is_none());
    assert_eq!(remove_fstab_entry(&added, "/swap/swapfile"), "/dev/sda1 / ext4 defaults 0 1\n\n");
}

fn device(name: &str, size: &str) -> ZramDeviceSection {
    ZramDeviceSection {
        name: name.into(),
        zram_size: Some(size.into()),
        zram_resident_limit: None,
        compression_algorithm: Some("zstd".into()),
        swap_priority: Some(100),
        fs_type: None,
        mount_point: None,
    }
}

#[test]
fn generator_upsert_replaces_named_device() {
    let mut conf = ZramGeneratorConf { devices: vec![device("zram0", "ram / 2"), device("zram1", "512")] };
    upsert_device(&mut conf, device("zram1", "1024"));
    assert_eq!(conf.devices.len(), 2);
    assert_eq!(conf.devices[1].zram_size.as_deref(), Some("1024"));
    upsert_device(&mut conf, device("zram2", "64"));
    assert_eq!(conf.devices.len(), 3);
    assert_eq!(conf.devices[2].name, "zram2");
}

#[test]
fn generator_show_reads_first_device() {
    let conf = ZramGeneratorConf { devices: vec![device("zram0", "ram / 2")] };
    let shown = show(&conf).unwrap();
    assert_eq!(shown.device, "zram0");
    assert_eq!(shown.zram_size.as_deref(), Some("ram / 2"));
    assert!(show(&ZramGeneratorConf { devices: vec![] }).is_none());
}

#[test]
fn generator_configure_rejects_invalid_size() {
    let config = ZramConfig {
        device: "zram0".into(),
        zram_size: Some("ram]".into()),
        zram_resident_limit: None,
        compression_algorithm: None,
        swap_priority: None,
        fs_type: None,
        mount_point: None,
    };
    assert!(matches!(configure(ZramGeneratorConf { devices: vec![] }, &config), Err(XzramError::Validation(_))));
    let ok = ZramConfig { zram_size: Some("ram / 2".into()), ..config };
    let text = configure(ZramGeneratorConf { devices: vec![] }, &ok).unwrap();
    assert!(text.contains("[zram0]"));
    assert!(text.contains("zram-size = ram / 2"));
}

#[test]
fn generator_disabled_config_is_empty() {
    assert_eq!(disabled_config(), "");
}

#[test]
fn zram_backend_selection_and_warnings() {
    assert_eq!(available_zram_backend(ZramBackend::ZramTools), "systemd-zram-generator");
    assert!(zram_backend_warning(ZramBackend::ZramTools).is_some());
    assert!(zram_backend_warning(ZramBackend::SystemdZramGenerator).is_none());
    assert!(ensure_zram_backend(ZramBackend::SystemdZramGenerator, true).is_ok());
    assert!(matches!(ensure_zram_backend(ZramBackend::SystemdZramGenerator, false), Err(XzramError::Backend(_))));
}

#[test]
fn added_entry_is_read_back_and_removal_forgets_it() {
    let fstab = "UUID=abc / btrfs defaults 0 0\n/old/swap none swap sw 0 0";
    let added = add_fstab_entry(fstab, "/swap/swapfile", -3).unwrap();
    let files = parse_fstab_swapfiles(&added);
    let last = files.last().unwrap();
    assert_eq!(last.path, "/swap/swapfile");
    assert_eq!(last.priority, -3);
    assert!(fstab_line_matches_swapfile(added.lines().last().unwrap(), "/swap/swapfile"));
    let removed = remove_fstab_entry(&added, "/swap/swapfile");
    assert!(!removed.lines().any(|l| fstab_line_matches_swapfile(l, "/swap/swapfile")));
    assert!(removed.lines().any(|l| fstab_line_matches_swapfile(l, "/old/swap")));
}

#[test]
fn written_generator_conf_parses_back() {
    let conf = ZramGeneratorConf { devices: vec![device("zram0", "ram / 2"), device("zram1", "512")] };
    let back = xzram::config::parse_zram_generator_conf(&xzram::config::write_zram_generator_conf(&conf));
    assert_eq!(back.devices.len(), 2);
    for (a, b) in conf.devices.iter().zip(back.devices.iter()) {
        assert_eq!(a.name, b.name);
        assert_eq!(a.zram_size, b.zram_size);
        assert_eq!(a.compression_algorithm, b.compression_algorithm);
        assert_eq!(a.swap_priority, b.swap_priority);
        assert_eq!(a.zram_resident_limit, b.zram_resident_limit);
    }
}
