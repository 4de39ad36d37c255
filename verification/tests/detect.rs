use xzram::detect::{
    classify_distro_fields, detect, detect_immutable_os, detect_init_system, detect_package_manager,
    detect_zram_backend, find_zram_generator_config, findmnt_options_include_ro, parse_os_release,
    parse_root_filesystem, zram_generator_package_name, DetectProbes, DistroFamily, PackageManager, ZramBackend,
};
use xzram::error::XzramError;

#[test]
fn classify_fedora() {
    assert_eq!(classify_distro_fields("fedora", &[]), DistroFamily::Fedora);
}

#[test]
fn classify_cachyos_as_arch() {
    assert_eq!(classify_distro_fields("cachyos", &["arch".into()]), DistroFamily::Arch);
}

#[test]
fn findmnt_options_detect_ro() {
    assert!(findmnt_options_include_ro("ro,relatime,ssd"));
    assert!(findmnt_options_include_ro("rw,ro"));
    assert!(!findmnt_options_include_ro("rw,relatime,ssd"));
    assert!(!findmnt_options_include_ro("rw,errors=remount-ro"));
}

#[test]
fn classify_falls_back_to_id_like() {
    assert_eq!(classify_distro_fields("neon", &["ubuntu".into(), "debian".into()]), DistroFamily::Ubuntu);
    assert_eq!(classify_distro_fields("kali", &["debian".into()]), DistroFamily::Debian);
    assert_eq!(classify_distro_fields("nobara", &["rhel".into()]), DistroFamily::Fedora);
    assert_eq!(classify_distro_fields("plan9", &[]), DistroFamily::Unknown);
}

#[test]
fn os_release_fields_are_unquoted() {
    let d = parse_os_release("NAME=\"Fedora Linux\"\nID=fedora\nVERSION_ID=40\nPRETTY_NAME=\"Fedora Linux 40\"\nID_LIKE=\"rhel centos\"\n");
    assert_eq!(d.id, "fedora");
    assert_eq!(d.version_id.as_deref(), Some("40"));
    assert_eq!(d.pretty_name.as_deref(), Some("Fedora Linux 40"));
    assert_eq!(d.id_like, vec!["rhel".to_string(), "centos".to_string()]);
    assert_eq!(d.family, DistroFamily::Fedora);
}

#[test]
fn package_manager_follows_family_then_binaries() {
    assert_eq!(detect_package_manager(&DistroFamily::Arch, &[], false, true, false), PackageManager::Pacman);
    assert_eq!(detect_package_manager(&DistroFamily::Unknown, &[], false, true, true), PackageManager::Apt);
    assert_eq!(detect_package_manager(&DistroFamily::Unknown, &[], false, false, false), PackageManager::Unknown);
    assert_eq!(zram_generator_package_name(PackageManager::Apt), "systemd-zram-generator");
    assert_eq!(zram_generator_package_name(PackageManager::Dnf), "zram-generator");
}

#[test]
fn zram_backend_and_config_detection() {
    assert_eq!(detect_zram_backend(true, true, true), ZramBackend::SystemdZramGenerator);
    assert_eq!(detect_zram_backend(false, true, true), ZramBackend::ZramTools);
    assert_eq!(detect_zram_backend(false, false, true), ZramBackend::Manual);
    assert_eq!(detect_zram_backend(false, false, false), ZramBackend::Absent);
    assert_eq!(
        find_zram_generator_config(&[false, true, true, false]).as_deref(),
        Some("/etc/systemd/zram-generator.conf")
    );
    assert_eq!(find_zram_generator_config(&[false, false, false, false]), None);
    assert_eq!(detect_init_system(false, true), "openrc");
    assert_eq!(parse_root_filesystem("  btrfs\n").as_deref(), Some("btrfs"));
    assert_eq!(parse_root_filesystem("\n"), None);
}

#[test]
fn immutable_os_markers() {
    let silverblue = parse_os_release("ID=fedora\nVARIANT_ID=silverblue\n");
    assert!(detect_immutable_os(&silverblue, false, false, Some("ID=fedora\nVARIANT_ID=silverblue\n")));
    let nixos = parse_os_release("ID=nixos\n");
    assert!(detect_immutable_os(&nixos, false, false, None));
    let plain = parse_os_release("ID=debian\n");
    assert!(!detect_immutable_os(&plain, false, false, Some("ID=debian\n")));
    assert!(detect_immutable_os(&plain, true, false, None));
}

fn probes() -> DetectProbes {
    DetectProbes {
        config_paths_present: vec![false, false, false, true],
        zramswap_exists: false,
        zram0_exists: true,
        run_systemd_exists: true,
        openrc_exists: false,
        has_zram_generator: false,
        has_pacman: false,
        has_apt: false,
        has_dnf: true,
        has_rpm_ostree: false,
        ostree_version_set: false,
        root_fs_output: Some("btrfs\n".into()),
        etc_writable: true,
    }
}

#[test]
fn detect_builds_full_report() {
    let report = detect(Some("ID=fedora\nVERSION_ID=40\n"), &probes()).unwrap();
    assert_eq!(report.distro.family, DistroFamily::Fedora);
    assert_eq!(report.package_manager, PackageManager::Dnf);
    assert_eq!(report.init_system, "systemd");
    assert_eq!(report.zram_backend, ZramBackend::SystemdZramGenerator);
    assert!(report.zram_generator_installed);
    assert_eq!(report.zram_generator_config.as_deref(), Some("/usr/lib/systemd/zram-generator.conf"));
    assert_eq!(report.root_filesystem.as_deref(), Some("btrfs"));
    assert!(report.etc_writable);
    assert!(!report.immutable_os);
}

#[test]
fn detect_without_os_release_is_not_found() {
    match detect(None, &probes()) {
        Err(XzramError::NotFound(p)) => assert_eq!(p, "/etc/os-release"),
        _ => panic!("expected not found"),
    }
}
