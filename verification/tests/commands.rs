use xzram::apply::commands::{
    deactivate_swap_path, device_is_active_swap, device_path, restart_zram_setup_unit, start_unit_error,
    stop_zram_setup_unit, swapoff_error, zram_setup_unit, HostOp,
};
use xzram::error::XzramError;

const SWAPS: &str = "Filename Type Size Used Priority\n/dev/zram0 partition 4194300 0 100\n/swap/swapfile file 10 0 10\n";

#[test]
fn device_is_active_swap_does_not_panic() {
    let _ = device_is_active_swap("", "zram0");
    let _ = device_is_active_swap("", "/dev/zram0");
    assert!(device_is_active_swap(SWAPS, "zram0"));
    assert!(device_is_active_swap(SWAPS, "/dev/zram0"));
    assert!(!device_is_active_swap(SWAPS, "zram1"));
    assert!(!device_is_active_swap(SWAPS, "Filename"));
}

#[test]
fn device_paths_and_units() {
    assert_eq!(device_path("zram0"), "/dev/zram0");
    assert_eq!(device_path("/dev/zram0"), "/dev/zram0");
    assert_eq!(zram_setup_unit("/dev/zram1"), "systemd-zram-setup@zram1.service");
}

fn run(program: &str, args: &[&str], ignore: bool) -> HostOp {
    HostOp::Run { program: program.into(), args: args.iter().map(|s| s.to_string()).collect(), ignore_failure: ignore }
}

fn same(a: &HostOp, b: &HostOp) -> bool {
    match (a, b) {
        (
            HostOp::Run { program: p1, args: a1, ignore_failure: i1 },
            HostOp::Run { program: p2, args: a2, ignore_failure: i2 },
        ) => p1 == p2 && a1 == a2 && i1 == i2,
        (HostOp::WriteIfExists { path: p1, content: c1 }, HostOp::WriteIfExists { path: p2, content: c2 }) => {
            p1 == p2 && c1 == c2
        },
        _ => false,
    }
}

#[test]
fn swapoff_only_when_active() {
    let ops = deactivate_swap_path(SWAPS, "/swap/swapfile");
    assert_eq!(ops.len(), 1);
    assert!(same(&ops[0], &run("swapoff", &["/swap/swapfile"], false)));
    assert!(deactivate_swap_path(SWAPS, "/swap/other").is_empty());
}

#[test]
fn restart_unit_sequence() {
    let ops = restart_zram_setup_unit(SWAPS, "zram0");
    let want = vec![
        run("swapoff", &["/dev/zram0"], false),
        run("systemctl", &["stop", "systemd-zram-setup@zram0.service"], true),
        HostOp::WriteIfExists { path: "/sys/block/zram0/reset".into(), content: "1".into() },
        run("systemctl", &["reset-failed", "systemd-zram-setup@zram0.service"], true),
        run("systemctl", &["start", "systemd-zram-setup@zram0.service"], false),
    ];
    assert_eq!(ops.len(), want.len());
    assert!(ops.iter().zip(want.iter()).all(|(a, b)| same(a, b)));
    assert_eq!(stop_zram_setup_unit("", "zram0").len(), 3);
}

#[test]
fn command_errors() {
    match swapoff_error("/swap/swapfile", "busy") {
        XzramError::Command(m) => {
            assert_eq!(m, "cannot modify /swap/swapfile while it is active swap (busy). Free memory and retry")
        },
        _ => panic!("expected command error"),
    }
    match start_unit_error("u.service", "boom") {
        XzramError::Command(m) => assert_eq!(m, "failed to start u.service: boom. Check: journalctl -xeu u.service"),
        _ => panic!("expected command error"),
    }
}
