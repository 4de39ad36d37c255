//! The host commands that deactivate swap and drive the zram setup units.
use vstd::prelude::*;

use crate::error::XzramError;
use crate::status::body_lines;
use crate::text::{chars_eq, chars_of, lines, owned, push_str, slice_of, split_ws, split_ws_of, starts_with, starts_with_str, string_of, lines_of, views};
use crate::swap_partition::trim_prefix_all;

verus! {

/// One operation on the host.
#[derive(Debug, Clone)]
pub enum HostOp {
    /// Run `program` with `args`; a failure is ignored when `ignore_failure`.
    Run { program: String, args: Vec<String>, ignore_failure: bool },
    /// Write `content` to `path` when the path exists, ignoring failures.
    WriteIfExists { path: String, content: String },
}

pub enum OpView {
    Run(Seq<char>, Seq<Seq<char>>, bool),
    WriteIfExists(Seq<char>, Seq<char>),
}

pub open spec fn strs(v: Seq<String>) -> Seq<Seq<char>> {
    v.map_values(|s: String| s@)
}

impl View for HostOp {
    type V = OpView;

    open spec fn view(&self) -> OpView {
        match self {
            HostOp::Run { program, args, ignore_failure } => OpView::Run(program@, strs(args@), *ignore_failure),
            HostOp::WriteIfExists { path, content } => OpView::WriteIfExists(path@, content@),
        }
    }
}

pub open spec fn ops_view(v: Seq<HostOp>) -> Seq<OpView> {
    v.map_values(|o: HostOp| o@)
}

/// A device name as a path: names not starting with `/` live under `/dev/`.
pub open spec fn spec_device_path(name: Seq<char>) -> Seq<char> {
    if name.len() > 0 && name[0] == '/' {
        name
    } else {
        "/dev/"@ + name
    }
}

pub fn device_path(name: &str) -> (p: String)
    ensures
        p@ == spec_device_path(name@),
{
    let c = chars_of(name);
    if c.len() > 0 && c[0] == '/' {
        owned(name)
    } else {
        let mut p = owned("/dev/");
        push_str(&mut p, name);
        p
    }
}

/// Some row of /proc/swaps (after the header) names `device` or its path in
/// its first field.
pub open spec fn spec_active_swap(proc_swaps: Seq<char>, device: Seq<char>) -> bool {
    let rows = body_lines(proc_swaps);
    exists|i: int|
        0 <= i < rows.len() && split_ws(#[trigger] rows[i]).len() > 0 && (split_ws(rows[i])[0] == spec_device_path(
            device,
        ) || split_ws(rows[i])[0] == device)
}

/// Whether /proc/swaps (its text) lists the device, e.g. `/dev/zram0` or
/// `zram0`.
pub fn device_is_active_swap(proc_swaps: &str, device: &str) -> (r: bool)
    ensures
        r == spec_active_swap(proc_swaps@, device@),
{
    let c = chars_of(proc_swaps);
    let ls = lines_of(&c);
    let needle = chars_of(device_path(device).as_str());
    let dc = chars_of(device);
    let ghost rows = body_lines(proc_swaps@);
    if ls.len() == 0 {
        assert(rows.len() == 0);
        return false;
    }
    let mut i: usize = 1;
    while i < ls.len()
        invariant
            1 <= i <= ls.len(),
            views(ls@) == lines(proc_swaps@),
            rows == views(ls@).drop_first(),
            rows == body_lines(proc_swaps@),
            needle@ == spec_device_path(device@),
            dc@ == device@,
            forall|j: int|
                0 <= j < i - 1 ==> !(split_ws(#[trigger] rows[j]).len() > 0 && (split_ws(rows[j])[0]
                    == spec_device_path(device@) || split_ws(rows[j])[0] == device@)),
        decreases ls.len() - i,
    {
        assert(rows[i - 1] == ls@[i as int]@);
        let f = split_ws_of(&ls[i]);
        if f.len() > 0 {
            assert(views(f@)[0] == f@[0]@);
            if chars_eq(&f[0], &needle) || chars_eq(&f[0], &dc) {
                assert(split_ws(rows[i - 1]) == views(f@));
                assert(split_ws(rows[i - 1]).len() > 0 && (split_ws(rows[i - 1])[0] == spec_device_path(device@)
                    || split_ws(rows[i - 1])[0] == device@));
                return true;
            }
        }
        i = i + 1;
    }
    false
}

fn run(program: &str, args: Vec<String>, ignore_failure: bool) -> (o: HostOp)
    ensures
        o@ == OpView::Run(program@, strs(args@), ignore_failure),
{
    HostOp::Run { program: owned(program), args, ignore_failure }
}

fn one(s: String) -> (v: Vec<String>)
    ensures
        strs(v@) == seq![s@],
{
    let v = vec![s];
    assert(strs(v@) =~= seq![v@[0]@]);
    v
}

fn two(a: &str, b: String) -> (v: Vec<String>)
    ensures
        strs(v@) == seq![a@, b@],
{
    let v = vec![owned(a), b];
    assert(strs(v@) =~= seq![v@[0]@, v@[1]@]);
    v
}

/// `swapoff` of `path` when /proc/swaps lists it; nothing otherwise.
pub open spec fn spec_deactivate_swap(proc_swaps: Seq<char>, path: Seq<char>) -> Seq<OpView> {
    if spec_active_swap(proc_swaps, path) {
        seq![OpView::Run("swapoff"@, seq![path], false)]
    } else {
        Seq::empty()
    }
}

/// The operations that swap off `path` when it is active swap.
pub fn deactivate_swap_path(proc_swaps: &str, path: &str) -> (ops: Vec<HostOp>)
    ensures
        ops_view(ops@) == spec_deactivate_swap(proc_swaps@, path@),
{
    let mut ops: Vec<HostOp> = Vec::new();
    if device_is_active_swap(proc_swaps, path) {
        ops.push(run("swapoff", one(owned(path)), false));
    }
    assert(ops_view(ops@) =~= spec_deactivate_swap(proc_swaps@, path@));
    ops
}

/// The operations that swap off a zram device by name or path.
pub fn deactivate_zram_device(proc_swaps: &str, device_name: &str) -> (ops: Vec<HostOp>)
    ensures
        ops_view(ops@) == spec_deactivate_swap(proc_swaps@, spec_device_path(device_name@)),
{
    let path = device_path(device_name);
    deactivate_swap_path(proc_swaps, path.as_str())
}

/// The error of a failed `swapoff`.
pub fn swapoff_error(path: &str, cause: &str) -> (e: XzramError)
    ensures
        e is Command && e->Command_0@ == "cannot modify "@ + path@ + " while it is active swap ("@ + cause@
            + "). Free memory and retry"@,
{
    let mut m = owned("cannot modify ");
    push_str(&mut m, path);
    push_str(&mut m, " while it is active swap (");
    push_str(&mut m, cause);
    push_str(&mut m, "). Free memory and retry");
    XzramError::Command(m)
}

/// The device name without its `/dev/` prefixes.
pub open spec fn unit_device(name: Seq<char>) -> Seq<char> {
    trim_prefix_all(name, "/dev/"@)
}

/// The systemd unit that sets up a zram device.
pub open spec fn spec_setup_unit(name: Seq<char>) -> Seq<char> {
    "systemd-zram-setup@"@ + unit_device(name) + ".service"@
}

fn strip_dev(name: &str) -> (s: String)
    ensures
        s@ == unit_device(name@),
{
    let c = chars_of(name);
    let t = crate::swap_partition::trim_dev_prefix(&c);
    string_of(&t)
}

pub fn zram_setup_unit(device_name: &str) -> (u: String)
    ensures
        u@ == spec_setup_unit(device_name@),
{
    let name = strip_dev(device_name);
    let mut u = owned("systemd-zram-setup@");
    push_str(&mut u, name.as_str());
    push_str(&mut u, ".service");
    u
}

/// Stopping a zram setup unit: swap the device off, stop the unit
/// (failure ignored), reset the device, clear the unit's failed state
/// (failure ignored).
pub open spec fn spec_stop_unit(proc_swaps: Seq<char>, device_name: Seq<char>) -> Seq<OpView> {
    let name = unit_device(device_name);
    spec_deactivate_swap(proc_swaps, spec_device_path(name)) + seq![
        OpView::Run("systemctl"@, seq!["stop"@, spec_setup_unit(name)], true),
        OpView::WriteIfExists("/sys/block/"@ + name + "/reset"@, "1"@),
        OpView::Run("systemctl"@, seq!["reset-failed"@, spec_setup_unit(name)], true),
    ]
}

pub fn stop_zram_setup_unit(proc_swaps: &str, device_name: &str) -> (ops: Vec<HostOp>)
    ensures
        ops_view(ops@) == spec_stop_unit(proc_swaps@, device_name@),
{
    let name = strip_dev(device_name);
    let mut ops = deactivate_zram_device(proc_swaps, name.as_str());
    let ghost start = ops_view(ops@);
    let unit = zram_setup_unit(name.as_str());
    proof {
        crate::swap_partition::lemma_trim_prefix_idempotent(device_name@, "/dev/"@);
    }
    assert(unit@ == spec_setup_unit(unit_device(device_name@)));
    let mut reset = owned("/sys/block/");
    push_str(&mut reset, name.as_str());
    push_str(&mut reset, "/reset");
    ops.push(run("systemctl", two("stop", owned(unit.as_str())), true));
    ops.push(HostOp::WriteIfExists { path: reset, content: owned("1") });
    ops.push(run("systemctl", two("reset-failed", unit), true));
    assert(ops_view(ops@) =~= spec_stop_unit(proc_swaps@, device_name@));
    ops
}

/// Restarting a zram setup unit: stop it, then start it.
pub open spec fn spec_restart_unit(proc_swaps: Seq<char>, device_name: Seq<char>) -> Seq<OpView> {
    spec_stop_unit(proc_swaps, unit_device(device_name)) + seq![
        OpView::Run("systemctl"@, seq!["start"@, spec_setup_unit(unit_device(device_name))], false),
    ]
}

pub fn restart_zram_setup_unit(proc_swaps: &str, device_name: &str) -> (ops: Vec<HostOp>)
    ensures
        ops_view(ops@) == spec_restart_unit(proc_swaps@, device_name@),
{
    let name = strip_dev(device_name);
    let mut ops = stop_zram_setup_unit(proc_swaps, name.as_str());
    let ghost start = ops_view(ops@);
    let unit = zram_setup_unit(name.as_str());
    proof {
        crate::swap_partition::lemma_trim_prefix_idempotent(device_name@, "/dev/"@);
    }
    ops.push(run("systemctl", two("start", unit), false));
    assert(ops_view(ops@) =~= spec_restart_unit(proc_swaps@, device_name@));
    ops
}

/// The error of a failed unit start.
pub fn start_unit_error(unit: &str, cause: &str) -> (e: XzramError)
    ensures
        e is Command && e->Command_0@ == "failed to start "@ + unit@ + ": "@ + cause@ + ". Check: journalctl -xeu "@
            + unit@,
{
    let mut m = owned("failed to start ");
    push_str(&mut m, unit);
    push_str(&mut m, ": ");
    push_str(&mut m, cause);
    push_str(&mut m, ". Check: journalctl -xeu ");
    push_str(&mut m, unit);
    XzramError::Command(m)
}

} // verus!
