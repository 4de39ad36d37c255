use xzram::config::{parse_zram_generator_conf, write_zram_generator_conf, ZramDeviceSection, ZramGeneratorConf};
use xzram::error::XzramError;
use xzram::helper::{apply_uses_pending, parse_helper_action, swap_program, HelperAction};
use xzram::privileged::{
    dbus_plan, dbus_unavailable, find_helper_for_pkexec, reads_payload_fields, DbusArg, DbusReply, PayloadFields,
};

fn no_fields() -> PayloadFields {
    PayloadFields { id: None, keep: None, trigger: None, label: None, path: None, size_mb: None, mkdir_parents: None }
}

#[test]
fn helper_actions_parse() {
    assert_eq!(parse_helper_action("swapfile.create").unwrap(), HelperAction::SwapfileCreate);
    assert_eq!(parse_helper_action("daemon.start").unwrap(), HelperAction::DaemonStart);
    match parse_helper_action("frobnicate") {
        Err(XzramError::Validation(m)) => assert_eq!(m, "unknown action: frobnicate"),
        _ => panic!("expected validation error"),
    }
}

#[test]
fn helper_swap_program_and_apply_source() {
    assert_eq!(swap_program("on").unwrap(), "swapon");
    assert_eq!(swap_program("off").unwrap(), "swapoff");
    assert!(matches!(swap_program("toggle"), Err(XzramError::Validation(_))));
    assert!(apply_uses_pending("{}"));
    assert!(!apply_uses_pending("{\"zram\":null}"));
}

#[test]
fn dbus_plan_for_prune_and_remove() {
    let plan = dbus_plan("snapshot.prune", "{}", &no_fields()).unwrap();
    assert_eq!(plan.calls.len(), 1);
    assert_eq!(plan.calls[0].method, "PruneSnapshots");
    assert!(matches!(plan.calls[0].args[0], DbusArg::U32(50)));
    assert_eq!(plan.calls[0].reply, DbusReply::PrintPruned);
    assert!(plan.done.is_none());

    let fields = PayloadFields { path: Some("/swap/swapfile".into()), ..no_fields() };
    let plan = dbus_plan("swapfile.remove", "{}", &fields).unwrap();
    assert_eq!(plan.calls.len(), 2);
    assert_eq!(plan.calls[0].method, "RemoveSwapfile");
    assert!(matches!(&plan.calls[0].args[0], DbusArg::Str(p) if p == "/swap/swapfile"));
    assert_eq!(plan.calls[1].method, "Apply");
    assert_eq!(plan.done.as_deref(), Some("Swapfile removed"));
}

#[test]
fn dbus_plan_refusals() {
    assert_eq!(dbus_plan("swap.activate", "{}", &no_fields()).unwrap_err(), "swap.activate not supported via D-Bus; use pkexec");
    assert_eq!(dbus_plan("reboot", "{}", &no_fields()).unwrap_err(), "unsupported D-Bus action: reboot");
}

#[test]
fn dbus_unavailable_ignores_case() {
    assert!(dbus_unavailable("org.freedesktop.DBus.Error.ServiceUnknown: Service Unknown"));
    assert!(dbus_unavailable("Name Has No Owner"));
    assert!(!dbus_unavailable("permission denied"));
}

#[test]
fn pkexec_helper_lookup() {
    assert_eq!(find_helper_for_pkexec(false, None, false, true).unwrap(), "/usr/libexec/xzram-helper");
    assert_eq!(find_helper_for_pkexec(true, Some("/opt/h"), true, true).unwrap(), "/opt/h");
    assert!(find_helper_for_pkexec(true, Some("rel"), false, true).is_err());
    assert!(find_helper_for_pkexec(false, None, false, false).unwrap_err().starts_with("xzram-helper not found at"));
}

#[test]
fn generator_conf_roundtrip() {
    let conf = ZramGeneratorConf {
        devices: vec![ZramDeviceSection {
            name: "zram0".into(),
            zram_size: Some("min(ram / 2, 4096)".into()),
            zram_resident_limit: Some("ram / 2".into()),
            compression_algorithm: Some("zstd".into()),
            swap_priority: Some(100),
            fs_type: None,
            mount_point: None,
        }],
    };
    let text = write_zram_generator_conf(&conf);
    let back = parse_zram_generator_conf(&text);
    assert_eq!(back.devices.len(), 1);
    let d = &back.devices[0];
    assert_eq!(d.name, "zram0");
    assert_eq!(d.zram_size.as_deref(), Some("min(ram / 2, 4096)"));
    assert_eq!(d.zram_resident_limit.as_deref(), Some("ram / 2"));
    assert_eq!(d.compression_algorithm.as_deref(), Some("zstd"));
    assert_eq!(d.swap_priority, Some(100));
}

#[test]
fn payload_fields_read_only_by_field_actions() {
    for action in ["snapshot.restore", "snapshot.delete", "snapshot.prune", "snapshot.create", "swapfile.resize", "swapfile.remove", "swapfile.prepare"] {
        assert!(reads_payload_fields(action), "{action}");
    }
    for action in ["stage", "apply", "rollback", "pending.clear", "zram.configure", "zram.disable", "swapfile.create", "sysctl.set", "zram.migrate", "swap.activate"] {
        assert!(!reads_payload_fields(action), "{action}");
    }
}
