use xzram::error::XzramError;
use xzram::sysctl::{
    merge_sysctl_overlay, proc_sys_path, read_drop_in, read_sysctl_value, show, validate_sysctl_values,
    zram_tuning_defaults, SysctlValues,
};

fn values(s: Option<u32>, b: Option<u32>, w: Option<u32>, p: Option<u32>) -> SysctlValues {
    SysctlValues { swappiness: s, watermark_boost_factor: b, watermark_scale_factor: w, page_cluster: p }
}

#[test]
fn proc_sys_path_maps_dots_to_slashes() {
    assert_eq!(proc_sys_path("vm.swappiness"), "/proc/sys/vm/swappiness");
    assert_eq!(proc_sys_path("vm.page-cluster"), "/proc/sys/vm/page-cluster");
    assert_eq!(proc_sys_path("vm.watermark_scale_factor"), "/proc/sys/vm/watermark_scale_factor");
}

#[test]
fn set_merges_existing_drop_in_keys() {
    let existing = "vm.swappiness = 60\nvm.page-cluster = 0\nvm.watermark_scale_factor = 125\n";
    let content = xzram::sysctl::set(existing, &values(Some(180), None, None, None)).unwrap();
    assert!(content.contains("vm.swappiness = 180"));
    assert!(content.contains("vm.page-cluster = 0"));
    assert!(content.contains("vm.watermark_scale_factor = 125"));
}

#[test]
fn validate_sysctl_accepts_gui_ranges() {
    assert!(validate_sysctl_values(&values(Some(200), Some(10000), Some(0), Some(8))).is_ok());
    assert!(validate_sysctl_values(&zram_tuning_defaults()).is_ok());
}

#[test]
fn validate_sysctl_rejects_out_of_range() {
    assert!(validate_sysctl_values(&values(Some(201), None, None, None)).is_err());
    assert!(validate_sysctl_values(&values(None, Some(10001), None, None)).is_err());
    assert!(validate_sysctl_values(&values(None, None, None, Some(9))).is_err());
}

#[test]
fn out_of_range_set_is_validation_error() {
    assert!(matches!(xzram::sysctl::set("", &values(Some(500), None, None, None)), Err(XzramError::Validation(_))));
}

#[test]
fn zram_tuning_defaults_values() {
    let d = zram_tuning_defaults();
    assert_eq!(d.swappiness, Some(180));
    assert_eq!(d.watermark_boost_factor, Some(0));
    assert_eq!(d.watermark_scale_factor, Some(125));
    assert_eq!(d.page_cluster, Some(0));
}

#[test]
fn drop_in_and_live_reads() {
    let v = read_drop_in("# comment\nvm.swappiness=10\nvm.page-cluster = 3\nother = 1\n");
    assert_eq!(v.swappiness, Some(10));
    assert_eq!(v.page_cluster, Some(3));
    assert_eq!(v.watermark_boost_factor, None);
    assert_eq!(read_sysctl_value("60\n"), Some(60));
    assert_eq!(read_sysctl_value("x"), None);
    let live = show(Some("60\n"), None, Some("10"), Some("3"));
    assert_eq!(live.swappiness, Some(60));
    assert_eq!(live.watermark_boost_factor, None);
    assert_eq!(live.watermark_scale_factor, Some(10));
}

#[test]
fn overlay_keeps_base_where_unset() {
    let merged = merge_sysctl_overlay(values(Some(60), Some(1), None, None), &values(None, Some(2), Some(3), None));
    assert_eq!(merged.swappiness, Some(60));
    assert_eq!(merged.watermark_boost_factor, Some(2));
    assert_eq!(merged.watermark_scale_factor, Some(3));
    assert_eq!(merged.page_cluster, None);
}

#[test]
fn set_then_read_back_gives_overlay() {
    let existing = "vm.swappiness = 60\nvm.watermark_boost_factor = 5\n";
    let written = values(Some(180), None, Some(125), None);
    let text = xzram::sysctl::set(existing, &written).unwrap();
    assert_eq!(read_drop_in(&text), merge_sysctl_overlay(read_drop_in(existing), &written));
    assert_eq!(read_drop_in(&text), values(Some(180), Some(5), Some(125), None));
}
