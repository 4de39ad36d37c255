//! Restoring a snapshot: the ordered host operations and the messages that
//! report them, decided from the snapshot record and what exists on disk.
use vstd::prelude::*;

use super::index::{first_pre_apply, latest_pre_apply_id};
use super::paths::{etc_path, FSTAB, SYSCTL_FILE, ZRAMSWAP_FILE, ZRAM_CONF};
use super::types::SnapshotMeta;
use crate::apply::pending::{join, join_path};
use crate::backend::swapfile::{fstab_swapfiles_of, parse_fstab_swapfiles, swapfiles_view};
use crate::config::{parse_zram_generator_conf, sections_view, spec_parse_conf};
use crate::apply::types::ZramConfigView;
use crate::error::XzramError;
use crate::num::{nat_str, push_nat};
use crate::text::{chars_eq, chars_of, lines, owned, push_str};

verus! {

/// One host operation of a restore.
#[derive(Debug, Clone)]
pub enum RestoreStep {
    /// `swapoff` of a swap path, when active.
    DeactivateSwap(String),
    /// `swapoff` of a zram device, when active.
    DeactivateZram(String),
    /// Copy a backup over a managed file, creating its parent directory.
    CopyFile { from: String, to: String },
    /// Remove a file.
    RemoveFile(String),
    /// Allocate and format a swapfile, then make it private (mode 0600).
    RecreateSwapfile { path: String, size_mb: u64 },
    /// `systemctl daemon-reload`.
    DaemonReload,
    /// Restart the zram setup unit of a device.
    RestartZram(String),
    /// Stop the zram setup unit of a device.
    StopZram(String),
    /// `sysctl --system`, whose failure is ignored.
    ReloadSysctl,
    /// `swapon -p priority path`, whose failure is ignored.
    Swapon { path: String, priority: i32 },
}

pub enum StepView {
    DeactivateSwap(Seq<char>),
    DeactivateZram(Seq<char>),
    CopyFile(Seq<char>, Seq<char>),
    RemoveFile(Seq<char>),
    RecreateSwapfile(Seq<char>, u64),
    DaemonReload,
    RestartZram(Seq<char>),
    StopZram(Seq<char>),
    ReloadSysctl,
    Swapon(Seq<char>, i32),
}

impl View for RestoreStep {
    type V = StepView;

    open spec fn view(&self) -> StepView {
        match self {
            RestoreStep::DeactivateSwap(p) => StepView::DeactivateSwap(p@),
            RestoreStep::DeactivateZram(n) => StepView::DeactivateZram(n@),
            RestoreStep::CopyFile { from, to } => StepView::CopyFile(from@, to@),
            RestoreStep::RemoveFile(p) => StepView::RemoveFile(p@),
            RestoreStep::RecreateSwapfile { path, size_mb } => StepView::RecreateSwapfile(path@, *size_mb),
            RestoreStep::DaemonReload => StepView::DaemonReload,
            RestoreStep::RestartZram(n) => StepView::RestartZram(n@),
            RestoreStep::StopZram(n) => StepView::StopZram(n@),
            RestoreStep::ReloadSysctl => StepView::ReloadSysctl,
            RestoreStep::Swapon { path, priority } => StepView::Swapon(path@, *priority),
        }
    }
}

pub open spec fn steps_view(v: Seq<RestoreStep>) -> Seq<StepView> {
    v.map_values(|s: RestoreStep| s@)
}

pub open spec fn strs(v: Seq<String>) -> Seq<Seq<char>> {
    v.map_values(|s: String| s@)
}

/// The operations of a restore and the messages reported when all succeed.
pub struct RestorePlan {
    pub steps: Vec<RestoreStep>,
    pub messages: Vec<String>,
}

/// What exists on the host for a restore.
pub struct RestoreFacts {
    /// The snapshot's directory.
    pub snapshot_dir: String,
    /// The `/etc` root.
    pub etc_root: String,
    pub dir_exists: bool,
    /// For each managed file (zram-generator.conf, fstab, sysctl, zramswap):
    /// the backup exists in the snapshot directory.
    pub backup_exists: Vec<bool>,
    /// For each managed file: the file exists under the `/etc` root now.
    pub target_exists: Vec<bool>,
    /// The swapfiles the backend lists now, each with whether it exists.
    pub current_swapfiles: Vec<(String, bool)>,
    /// For each swapfile of the snapshot: its path exists now.
    pub snapshot_swapfile_exists: Vec<bool>,
    /// The text of the backed-up zram-generator.conf, when it exists.
    pub zram_backup: Option<String>,
    /// The text of the backed-up fstab, when it exists.
    pub fstab_backup: Option<String>,
    /// The text of the fstab under the `/etc` root now, when it exists.
    pub fstab_current: Option<String>,
}

pub open spec fn facts_ok(m: SnapshotMeta, f: RestoreFacts) -> bool {
    &&& f.backup_exists.len() == 4
    &&& f.target_exists.len() == 4
    &&& f.snapshot_swapfile_exists.len() == m.swapfiles.len()
}

// ---------------------------------------------------------------------------
// The plan as sequences
// ---------------------------------------------------------------------------

/// One managed file: its backup name, its path under `/etc`, and its label.
pub open spec fn managed(i: int) -> (Seq<char>, Seq<char>, Seq<char>) {
    if i == 0 {
        ("zram-generator.conf"@, ZRAM_CONF@, "zram-generator.conf"@)
    } else if i == 1 {
        ("fstab"@, FSTAB@, "/etc/fstab"@)
    } else if i == 2 {
        ("99-xzram.conf"@, SYSCTL_FILE@, "sysctl configuration"@)
    } else {
        ("zramswap"@, ZRAMSWAP_FILE@, "zram-tools configuration"@)
    }
}

pub open spec fn artifact_present(m: SnapshotMeta, i: int) -> bool {
    if i == 0 {
        m.artifacts.zram_generator_conf.present
    } else if i == 1 {
        m.artifacts.fstab.present
    } else if i == 2 {
        m.artifacts.sysctl.present
    } else {
        m.artifacts.zramswap.present
    }
}

pub open spec fn zram_names(n: nat) -> Seq<Seq<char>>
    decreases n,
{
    if n == 0 {
        Seq::empty()
    } else {
        zram_names((n - 1) as nat).push("zram"@ + nat_str((n - 1) as nat))
    }
}

/// Swap off the snapshot's swapfiles, its zram devices, and zram0..zram7.
pub open spec fn swapoff_steps(m: SnapshotMeta) -> Seq<StepView> {
    m.swapfiles@.map_values(|s: super::types::SnapshotSwapfile| StepView::DeactivateSwap(s.path@))
        + m.zram_devices@.map_values(|d: crate::status::ZramDevice| StepView::DeactivateZram(d.name@))
        + zram_names(8).map_values(|n: Seq<char>| StepView::DeactivateZram(n))
}

/// Restore or remove one managed file.
pub open spec fn file_step(m: SnapshotMeta, f: RestoreFacts, i: int) -> (Seq<StepView>, Seq<Seq<char>>) {
    let (name, rel, label) = managed(i);
    if artifact_present(m, i) {
        if f.backup_exists@[i] {
            (
                seq![StepView::CopyFile(join_path(f.snapshot_dir@, name), join_path(f.etc_root@, rel))],
                seq!["Restored "@ + label],
            )
        } else {
            (Seq::empty(), Seq::empty())
        }
    } else if f.target_exists@[i] {
        (
            seq![StepView::RemoveFile(join_path(f.etc_root@, rel))],
            seq!["Removed "@ + label + " (was absent in snapshot)"@],
        )
    } else {
        (Seq::empty(), Seq::empty())
    }
}

pub open spec fn file_steps(m: SnapshotMeta, f: RestoreFacts, n: nat) -> (Seq<StepView>, Seq<Seq<char>>)
    decreases n,
{
    if n == 0 {
        (Seq::empty(), Seq::empty())
    } else {
        let prev = file_steps(m, f, (n - 1) as nat);
        let s = file_step(m, f, n - 1);
        (prev.0 + s.0, prev.1 + s.1)
    }
}

pub open spec fn in_snapshot(m: SnapshotMeta, path: Seq<char>) -> bool {
    exists|i: int| 0 <= i < m.swapfiles@.len() && (#[trigger] m.swapfiles@[i]).path@ == path
}

/// Swapfiles listed now but absent from the snapshot are swapped off and,
/// when they exist, removed.
pub open spec fn cleanup_steps(m: SnapshotMeta, current: Seq<(String, bool)>) -> (Seq<StepView>, Seq<Seq<char>>)
    decreases current.len(),
{
    if current.len() == 0 {
        (Seq::empty(), Seq::empty())
    } else {
        let prev = cleanup_steps(m, current.drop_last());
        let (path, exists) = current.last();
        if in_snapshot(m, path@) {
            prev
        } else if exists {
            (
                prev.0 + seq![StepView::DeactivateSwap(path@), StepView::RemoveFile(path@)],
                prev.1.push("Removed swapfile "@ + path@ + " (not in snapshot)"@),
            )
        } else {
            (prev.0.push(StepView::DeactivateSwap(path@)), prev.1)
        }
    }
}

/// The snapshot's swapfiles that do not exist are recreated.
pub open spec fn recreate_steps(m: SnapshotMeta, exists: Seq<bool>, n: nat) -> (Seq<StepView>, Seq<Seq<char>>)
    decreases n,
{
    if n == 0 {
        (Seq::empty(), Seq::empty())
    } else {
        let prev = recreate_steps(m, exists, (n - 1) as nat);
        let s = m.swapfiles@[n - 1];
        if exists[n - 1] {
            prev
        } else {
            (
                prev.0.push(StepView::RecreateSwapfile(s.path@, s.size_mb)),
                prev.1.push("Recreated swapfile "@ + s.path@ + " ("@ + nat_str(s.size_mb as nat) + " MiB)"@),
            )
        }
    }
}

/// After the daemon reload: restart the zram units of the backed-up config,
/// or stop zram0..zram7 when the snapshot had no config.
pub open spec fn zram_unit_steps(m: SnapshotMeta, f: RestoreFacts) -> (Seq<StepView>, Seq<Seq<char>>) {
    if m.artifacts.zram_generator_conf.present {
        if f.backup_exists@[0] {
            let devices = match f.zram_backup {
                Some(t) => spec_parse_conf(t@),
                None => Seq::empty(),
            };
            (
                devices.map_values(|d: ZramConfigView| StepView::RestartZram(d.device)),
                seq!["Restarted zram units"@],
            )
        } else {
            (Seq::empty(), Seq::empty())
        }
    } else {
        (
            zram_names(8).map_values(|n: Seq<char>| StepView::StopZram(n)),
            seq!["Stopped zram units (absent in snapshot)"@],
        )
    }
}

/// The fstab in force after the files are restored.
pub open spec fn fstab_after(m: SnapshotMeta, f: RestoreFacts) -> Option<Seq<char>> {
    if m.artifacts.fstab.present {
        if f.backup_exists@[1] {
            match f.fstab_backup {
                Some(t) => Some(t@),
                None => Some(Seq::empty()),
            }
        } else {
            match f.fstab_current {
                Some(t) => Some(t@),
                None => None,
            }
        }
    } else {
        None
    }
}

/// Activate every swapfile of the restored fstab.
pub open spec fn swapon_steps(fstab: Option<Seq<char>>) -> (Seq<StepView>, Seq<Seq<char>>) {
    match fstab {
        Some(t) => (
            fstab_swapfiles_of(lines(t)).map_values(|e: (Seq<char>, i32)| StepView::Swapon(e.0, e.1)),
            seq!["Activated swapfiles from fstab"@],
        ),
        None => (Seq::empty(), Seq::empty()),
    }
}

/// The whole restore: swap off, restore the four files, clean up and
/// recreate swapfiles, reload systemd, handle the zram units, reload sysctl
/// when the snapshot had sysctl settings, and swap on from fstab.
pub open spec fn spec_restore(m: SnapshotMeta, f: RestoreFacts) -> (Seq<StepView>, Seq<Seq<char>>) {
    let files = file_steps(m, f, 4);
    let clean = cleanup_steps(m, f.current_swapfiles@);
    let again = recreate_steps(m, f.snapshot_swapfile_exists@, m.swapfiles@.len());
    let units = zram_unit_steps(m, f);
    let sysctl: (Seq<StepView>, Seq<Seq<char>>) = if m.artifacts.sysctl.present {
        (seq![StepView::ReloadSysctl], seq!["Reloaded sysctl"@])
    } else {
        (Seq::empty(), Seq::empty())
    };
    let on = swapon_steps(fstab_after(m, f));
    (
        swapoff_steps(m) + files.0 + clean.0 + again.0 + seq![StepView::DaemonReload] + units.0 + sysctl.0 + on.0,
        files.1 + clean.1 + again.1 + seq!["Reloaded systemd"@] + units.1 + sysctl.1 + on.1,
    )
}

// ---------------------------------------------------------------------------
// Building the plan
// ---------------------------------------------------------------------------

fn add_step(steps: &mut Vec<RestoreStep>, s: RestoreStep)
    ensures
        steps_view(final(steps)@) == steps_view(old(steps)@).push(s@),
{
    steps.push(s);
    assert(steps_view(steps@) =~= steps_view(old(steps)@).push(s@));
}

fn add_message(messages: &mut Vec<String>, m: String)
    ensures
        strs(final(messages)@) == strs(old(messages)@).push(m@),
{
    messages.push(m);
    assert(strs(messages@) =~= strs(old(messages)@).push(m@));
}

fn zram_name(i: u64) -> (s: String)
    requires
        i < 8,
    ensures
        s@ == "zram"@ + nat_str(i as nat),
{
    let mut s = owned("zram");
    push_nat(&mut s, i);
    s
}

/// The zram devices that disabling or restoring tears down: zram0 to zram7.
pub fn managed_zram_names() -> (v: Vec<String>)
    ensures
        strs(v@) == zram_names(8),
{
    let mut v: Vec<String> = Vec::new();
    let mut i: u64 = 0;
    while i < 8
        invariant
            i <= 8,
            strs(v@) == zram_names(i as nat),
        decreases 8 - i,
    {
        let n = zram_name(i);
        v.push(n);
        i = i + 1;
        assert(strs(v@) =~= zram_names(i as nat));
    }
    v
}

fn add_zram_names(steps: &mut Vec<RestoreStep>, stop: bool)
    ensures
        steps_view(final(steps)@) == steps_view(old(steps)@) + (if stop {
            zram_names(8).map_values(|n: Seq<char>| StepView::StopZram(n))
        } else {
            zram_names(8).map_values(|n: Seq<char>| StepView::DeactivateZram(n))
        }),
{
    let ghost start = steps_view(steps@);
    let mut i: u64 = 0;
    while i < 8
        invariant
            i <= 8,
            steps_view(steps@) == start + (if stop {
                zram_names(i as nat).map_values(|n: Seq<char>| StepView::StopZram(n))
            } else {
                zram_names(i as nat).map_values(|n: Seq<char>| StepView::DeactivateZram(n))
            }),
        decreases 8 - i,
    {
        let n = zram_name(i);
        if stop {
            add_step(steps, RestoreStep::StopZram(n));
        } else {
            add_step(steps, RestoreStep::DeactivateZram(n));
        }
        i = i + 1;
        assert(zram_names(i as nat) == zram_names((i - 1) as nat).push("zram"@ + nat_str((i - 1) as nat)));
        assert(steps_view(steps@) =~= start + (if stop {
            zram_names(i as nat).map_values(|n: Seq<char>| StepView::StopZram(n))
        } else {
            zram_names(i as nat).map_values(|n: Seq<char>| StepView::DeactivateZram(n))
        }));
    }
}

fn add_swapoff(steps: &mut Vec<RestoreStep>, meta: &SnapshotMeta)
    ensures
        steps_view(final(steps)@) == steps_view(old(steps)@) + swapoff_steps(*meta),
{
    let ghost start = steps_view(steps@);
    let ghost a = meta.swapfiles@.map_values(|s: super::types::SnapshotSwapfile| StepView::DeactivateSwap(s.path@));
    let ghost b = meta.zram_devices@.map_values(|d: crate::status::ZramDevice| StepView::DeactivateZram(d.name@));
    let mut i: usize = 0;
    while i < meta.swapfiles.len()
        invariant
            i <= meta.swapfiles.len(),
            a == meta.swapfiles@.map_values(|s: super::types::SnapshotSwapfile| StepView::DeactivateSwap(s.path@)),
            steps_view(steps@) == start + a.subrange(0, i as int),
        decreases meta.swapfiles.len() - i,
    {
        add_step(steps, RestoreStep::DeactivateSwap(owned(meta.swapfiles[i].path.as_str())));
        i = i + 1;
        assert(steps_view(steps@) =~= start + a.subrange(0, i as int));
    }
    assert(a.subrange(0, a.len() as int) =~= a);
    let mut j: usize = 0;
    while j < meta.zram_devices.len()
        invariant
            j <= meta.zram_devices.len(),
            b == meta.zram_devices@.map_values(|d: crate::status::ZramDevice| StepView::DeactivateZram(d.name@)),
            steps_view(steps@) == start + a + b.subrange(0, j as int),
        decreases meta.zram_devices.len() - j,
    {
        add_step(steps, RestoreStep::DeactivateZram(owned(meta.zram_devices[j].name.as_str())));
        j = j + 1;
        assert(steps_view(steps@) =~= start + a + b.subrange(0, j as int));
    }
    assert(b.subrange(0, b.len() as int) =~= b);
    add_zram_names(steps, false);
    assert(steps_view(steps@) =~= start + swapoff_steps(*meta));
}

fn managed_entry(i: usize) -> (r: (&'static str, &'static str, &'static str))
    requires
        i < 4,
    ensures
        (r.0@, r.1@, r.2@) == managed(i as int),
{
    if i == 0 {
        ("zram-generator.conf", ZRAM_CONF, "zram-generator.conf")
    } else if i == 1 {
        ("fstab", FSTAB, "/etc/fstab")
    } else if i == 2 {
        ("99-xzram.conf", SYSCTL_FILE, "sysctl configuration")
    } else {
        ("zramswap", ZRAMSWAP_FILE, "zram-tools configuration")
    }
}

fn present_at(meta: &SnapshotMeta, i: usize) -> (r: bool)
    requires
        i < 4,
    ensures
        r == artifact_present(*meta, i as int),
{
    if i == 0 {
        meta.artifacts.zram_generator_conf.present
    } else if i == 1 {
        meta.artifacts.fstab.present
    } else if i == 2 {
        meta.artifacts.sysctl.present
    } else {
        meta.artifacts.zramswap.present
    }
}

fn add_files(steps: &mut Vec<RestoreStep>, messages: &mut Vec<String>, meta: &SnapshotMeta, facts: &RestoreFacts)
    requires
        facts_ok(*meta, *facts),
    ensures
        steps_view(final(steps)@) == steps_view(old(steps)@) + file_steps(*meta, *facts, 4).0,
        strs(final(messages)@) == strs(old(messages)@) + file_steps(*meta, *facts, 4).1,
{
    let ghost s0 = steps_view(steps@);
    let ghost m0 = strs(messages@);
    let mut i: usize = 0;
    while i < 4
        invariant
            i <= 4,
            facts_ok(*meta, *facts),
            steps_view(steps@) == s0 + file_steps(*meta, *facts, i as nat).0,
            strs(messages@) == m0 + file_steps(*meta, *facts, i as nat).1,
        decreases 4 - i,
    {
        let (name, rel, label) = managed_entry(i);
        let ghost sa = steps_view(steps@);
        let ghost ma = strs(messages@);
        if present_at(meta, i) {
            if facts.backup_exists[i] {
                let from = join(facts.snapshot_dir.as_str(), name);
                let to = join(facts.etc_root.as_str(), rel);
                add_step(steps, RestoreStep::CopyFile { from, to });
                let mut m = owned("Restored ");
                push_str(&mut m, label);
                add_message(messages, m);
            }
        } else if facts.target_exists[i] {
            add_step(steps, RestoreStep::RemoveFile(join(facts.etc_root.as_str(), rel)));
            let mut m = owned("Removed ");
            push_str(&mut m, label);
            push_str(&mut m, " (was absent in snapshot)");
            add_message(messages, m);
        }
        let ghost st = file_step(*meta, *facts, i as int);
        assert(steps_view(steps@) =~= sa + st.0);
        assert(strs(messages@) =~= ma + st.1);
        i = i + 1;
        assert(steps_view(steps@) =~= s0 + file_steps(*meta, *facts, i as nat).0);
        assert(strs(messages@) =~= m0 + file_steps(*meta, *facts, i as nat).1);
    }
}

fn listed_in_snapshot(meta: &SnapshotMeta, path: &str) -> (r: bool)
    ensures
        r == in_snapshot(*meta, path@),
{
    let p = chars_of(path);
    let mut i: usize = 0;
    while i < meta.swapfiles.len()
        invariant
            i <= meta.swapfiles.len(),
            p@ == path@,
            forall|j: int| 0 <= j < i ==> (#[trigger] meta.swapfiles@[j]).path@ != path@,
        decreases meta.swapfiles.len() - i,
    {
        if chars_eq(&chars_of(meta.swapfiles[i].path.as_str()), &p) {
            return true;
        }
        i = i + 1;
    }
    false
}

fn add_cleanup(steps: &mut Vec<RestoreStep>, messages: &mut Vec<String>, meta: &SnapshotMeta, facts: &RestoreFacts)
    ensures
        steps_view(final(steps)@) == steps_view(old(steps)@) + cleanup_steps(*meta, facts.current_swapfiles@).0,
        strs(final(messages)@) == strs(old(messages)@) + cleanup_steps(*meta, facts.current_swapfiles@).1,
{
    let ghost s0 = steps_view(steps@);
    let ghost m0 = strs(messages@);
    let ghost cur = facts.current_swapfiles@;
    let mut i: usize = 0;
    assert(cur.subrange(0, 0) =~= Seq::<(String, bool)>::empty());
    while i < facts.current_swapfiles.len()
        invariant
            i <= facts.current_swapfiles.len(),
            cur == facts.current_swapfiles@,
            steps_view(steps@) == s0 + cleanup_steps(*meta, cur.subrange(0, i as int)).0,
            strs(messages@) == m0 + cleanup_steps(*meta, cur.subrange(0, i as int)).1,
        decreases facts.current_swapfiles.len() - i,
    {
        let ghost pre = cur.subrange(0, (i + 1) as int);
        assert(pre.drop_last() =~= cur.subrange(0, i as int));
        assert(pre.last() == cur[i as int]);
        let ghost sa = steps_view(steps@);
        let ghost ma = strs(messages@);
        let (path, exists) = (&facts.current_swapfiles[i].0, facts.current_swapfiles[i].1);
        if !listed_in_snapshot(meta, path.as_str()) {
            add_step(steps, RestoreStep::DeactivateSwap(owned(path.as_str())));
            if exists {
                add_step(steps, RestoreStep::RemoveFile(owned(path.as_str())));
                let mut m = owned("Removed swapfile ");
                push_str(&mut m, path.as_str());
                push_str(&mut m, " (not in snapshot)");
                add_message(messages, m);
                assert(steps_view(steps@) =~= sa + seq![StepView::DeactivateSwap(path@), StepView::RemoveFile(path@)]);
            }
        }
        i = i + 1;
        assert(steps_view(steps@) =~= s0 + cleanup_steps(*meta, cur.subrange(0, i as int)).0);
        assert(strs(messages@) =~= m0 + cleanup_steps(*meta, cur.subrange(0, i as int)).1);
    }
    assert(cur.subrange(0, cur.len() as int) =~= cur);
}

fn add_recreate(steps: &mut Vec<RestoreStep>, messages: &mut Vec<String>, meta: &SnapshotMeta, facts: &RestoreFacts)
    requires
        facts_ok(*meta, *facts),
    ensures
        steps_view(final(steps)@) == steps_view(old(steps)@) + recreate_steps(
            *meta,
            facts.snapshot_swapfile_exists@,
            meta.swapfiles@.len(),
        ).0,
        strs(final(messages)@) == strs(old(messages)@) + recreate_steps(
            *meta,
            facts.snapshot_swapfile_exists@,
            meta.swapfiles@.len(),
        ).1,
{
    let ghost s0 = steps_view(steps@);
    let ghost m0 = strs(messages@);
    let mut i: usize = 0;
    while i < meta.swapfiles.len()
        invariant
            i <= meta.swapfiles.len(),
            facts_ok(*meta, *facts),
            steps_view(steps@) == s0 + recreate_steps(*meta, facts.snapshot_swapfile_exists@, i as nat).0,
            strs(messages@) == m0 + recreate_steps(*meta, facts.snapshot_swapfile_exists@, i as nat).1,
        decreases meta.swapfiles.len() - i,
    {
        let ghost sa = steps_view(steps@);
        let ghost ma = strs(messages@);
        if !facts.snapshot_swapfile_exists[i] {
            let sf = &meta.swapfiles[i];
            add_step(steps, RestoreStep::RecreateSwapfile { path: owned(sf.path.as_str()), size_mb: sf.size_mb });
            let mut m = owned("Recreated swapfile ");
            push_str(&mut m, sf.path.as_str());
            push_str(&mut m, " (");
            push_nat(&mut m, sf.size_mb);
            push_str(&mut m, " MiB)");
            add_message(messages, m);
        }
        i = i + 1;
        assert(steps_view(steps@) =~= s0 + recreate_steps(*meta, facts.snapshot_swapfile_exists@, i as nat).0);
        assert(strs(messages@) =~= m0 + recreate_steps(*meta, facts.snapshot_swapfile_exists@, i as nat).1);
    }
}

fn add_zram_units(steps: &mut Vec<RestoreStep>, messages: &mut Vec<String>, meta: &SnapshotMeta, facts: &RestoreFacts)
    requires
        facts_ok(*meta, *facts),
    ensures
        steps_view(final(steps)@) == steps_view(old(steps)@) + zram_unit_steps(*meta, *facts).0,
        strs(final(messages)@) == strs(old(messages)@) + zram_unit_steps(*meta, *facts).1,
{
    let ghost s0 = steps_view(steps@);
    let ghost m0 = strs(messages@);
    if meta.artifacts.zram_generator_conf.present {
        if facts.backup_exists[0] {
            let devices = match &facts.zram_backup {
                Some(t) => parse_zram_generator_conf(t.as_str()).devices,
                None => Vec::new(),
            };
            let ghost dv = sections_view(devices@);
            assert(dv == (match facts.zram_backup {
                Some(t) => spec_parse_conf(t@),
                None => Seq::<ZramConfigView>::empty(),
            }));
            let ghost want = dv.map_values(|d: ZramConfigView| StepView::RestartZram(d.device));
            let mut i: usize = 0;
            while i < devices.len()
                invariant
                    i <= devices.len(),
                    dv == sections_view(devices@),
                    want == dv.map_values(|d: ZramConfigView| StepView::RestartZram(d.device)),
                    steps_view(steps@) == s0 + want.subrange(0, i as int),
                decreases devices.len() - i,
            {
                add_step(steps, RestoreStep::RestartZram(owned(devices[i].name.as_str())));
                i = i + 1;
                assert(steps_view(steps@) =~= s0 + want.subrange(0, i as int));
            }
            assert(want.subrange(0, want.len() as int) =~= want);
            add_message(messages, owned("Restarted zram units"));
        }
    } else {
        add_zram_names(steps, true);
        add_message(messages, owned("Stopped zram units (absent in snapshot)"));
    }
    assert(strs(messages@) =~= m0 + zram_unit_steps(*meta, *facts).1);
}

fn add_swapon(steps: &mut Vec<RestoreStep>, messages: &mut Vec<String>, meta: &SnapshotMeta, facts: &RestoreFacts)
    requires
        facts_ok(*meta, *facts),
    ensures
        steps_view(final(steps)@) == steps_view(old(steps)@) + swapon_steps(fstab_after(*meta, *facts)).0,
        strs(final(messages)@) == strs(old(messages)@) + swapon_steps(fstab_after(*meta, *facts)).1,
{
    let ghost s0 = steps_view(steps@);
    let ghost m0 = strs(messages@);
    let text: Option<&str> = if meta.artifacts.fstab.present {
        if facts.backup_exists[1] {
            match &facts.fstab_backup {
                Some(t) => Some(t.as_str()),
                None => Some(""),
            }
        } else {
            match &facts.fstab_current {
                Some(t) => Some(t.as_str()),
                None => None,
            }
        }
    } else {
        None
    };
    proof {
        reveal_strlit("");
    }
    assert(match text {
        Some(t) => fstab_after(*meta, *facts) == Some(t@),
        None => fstab_after(*meta, *facts) is None,
    });
    if let Some(t) = text {
        let entries = parse_fstab_swapfiles(t);
        let ghost ev = swapfiles_view(entries@);
        let ghost want = ev.map_values(|e: (Seq<char>, i32)| StepView::Swapon(e.0, e.1));
        let mut i: usize = 0;
        while i < entries.len()
            invariant
                i <= entries.len(),
                ev == swapfiles_view(entries@),
                want == ev.map_values(|e: (Seq<char>, i32)| StepView::Swapon(e.0, e.1)),
                steps_view(steps@) == s0 + want.subrange(0, i as int),
            decreases entries.len() - i,
        {
            add_step(steps, RestoreStep::Swapon { path: owned(entries[i].path.as_str()), priority: entries[i].priority });
            i = i + 1;
            assert(steps_view(steps@) =~= s0 + want.subrange(0, i as int));
        }
        assert(want.subrange(0, want.len() as int) =~= want);
        add_message(messages, owned("Activated swapfiles from fstab"));
    }
    assert(strs(messages@) =~= m0 + swapon_steps(fstab_after(*meta, *facts)).1);
}

/// The restore plan of a snapshot, or not found when its directory is
/// missing.
pub fn restore_snapshot(meta: &SnapshotMeta, facts: &RestoreFacts) -> (r: Result<RestorePlan, XzramError>)
    requires
        facts_ok(*meta, *facts),
    ensures
        !facts.dir_exists <==> r is Err,
        r matches Err(e) ==> e is NotFound && e->NotFound_0@ == "snapshot directory missing: "@ + meta.id@,
        r matches Ok(p) ==> steps_view(p.steps@) == spec_restore(*meta, *facts).0 && strs(p.messages@) == spec_restore(
            *meta,
            *facts,
        ).1,
{
    if !facts.dir_exists {
        let mut m = owned("snapshot directory missing: ");
        push_str(&mut m, meta.id.as_str());
        return Err(XzramError::NotFound(m));
    }
    let mut steps: Vec<RestoreStep> = Vec::new();
    let mut messages: Vec<String> = Vec::new();
    assert(steps_view(steps@) =~= Seq::<StepView>::empty());
    assert(strs(messages@) =~= Seq::<Seq<char>>::empty());
    add_swapoff(&mut steps, meta);
    add_files(&mut steps, &mut messages, meta, facts);
    add_cleanup(&mut steps, &mut messages, meta, facts);
    add_recreate(&mut steps, &mut messages, meta, facts);
    add_step(&mut steps, RestoreStep::DaemonReload);
    add_message(&mut messages, owned("Reloaded systemd"));
    add_zram_units(&mut steps, &mut messages, meta, facts);
    if meta.artifacts.sysctl.present {
        add_step(&mut steps, RestoreStep::ReloadSysctl);
        add_message(&mut messages, owned("Reloaded sysctl"));
    }
    add_swapon(&mut steps, &mut messages, meta, facts);
    assert(steps_view(steps@) =~= spec_restore(*meta, *facts).0);
    assert(strs(messages@) =~= spec_restore(*meta, *facts).1);
    Ok(RestorePlan { steps, messages })
}

/// The snapshot that rollback restores: the newest pre-apply snapshot.
pub fn rollback(index: &Vec<SnapshotMeta>) -> (r: Result<String, XzramError>)
    ensures
        match first_pre_apply(index@) {
            Some(i) => r is Ok && r->Ok_0@ == index@[i].id@,
            None => r is Err && r->Err_0 is NotFound && r->Err_0->NotFound_0@ == "no pre_apply snapshot found"@,
        },
{
    latest_pre_apply_id(index)
}

// ---------------------------------------------------------------------------
// Laws of the restore
// ---------------------------------------------------------------------------

proof fn lemma_contains_concat(a: Seq<StepView>, b: Seq<StepView>, x: StepView)
    ensures
        a.contains(x) ==> (a + b).contains(x),
        b.contains(x) ==> (a + b).contains(x),
{
    if a.contains(x) {
        let k = choose|k: int| 0 <= k < a.len() && a[k] == x;
        assert((a + b)[k] == x);
    }
    if b.contains(x) {
        let k = choose|k: int| 0 <= k < b.len() && b[k] == x;
        assert((a + b)[a.len() + k] == x);
    }
}

proof fn lemma_file_steps_contain(m: SnapshotMeta, f: RestoreFacts, n: nat, i: int, x: StepView)
    requires
        0 <= i < n,
        file_step(m, f, i).0.contains(x),
    ensures
        file_steps(m, f, n).0.contains(x),
    decreases n,
{
    let prev = file_steps(m, f, (n - 1) as nat);
    let st = file_step(m, f, n - 1);
    if i == n - 1 {
        lemma_contains_concat(prev.0, st.0, x);
    } else {
        lemma_file_steps_contain(m, f, (n - 1) as nat, i, x);
        lemma_contains_concat(prev.0, st.0, x);
    }
}

proof fn lemma_recreate_contains(m: SnapshotMeta, exists: Seq<bool>, n: nat, j: int)
    requires
        0 <= j < n,
        n <= m.swapfiles@.len(),
        !exists[j],
    ensures
        recreate_steps(m, exists, n).0.contains(
            StepView::RecreateSwapfile(m.swapfiles@[j].path@, m.swapfiles@[j].size_mb),
        ),
    decreases n,
{
    let x = StepView::RecreateSwapfile(m.swapfiles@[j].path@, m.swapfiles@[j].size_mb);
    let prev = recreate_steps(m, exists, (n - 1) as nat);
    if j == n - 1 {
        let r = prev.0.push(x);
        assert(r[r.len() - 1] == x);
    } else {
        lemma_recreate_contains(m, exists, (n - 1) as nat, j);
        if !exists[n - 1] {
            let s = m.swapfiles@[n - 1];
            let y = StepView::RecreateSwapfile(s.path@, s.size_mb);
            let k = choose|k: int| 0 <= k < prev.0.len() && prev.0[k] == x;
            assert(prev.0.push(y)[k] == x);
        }
    }
}

/// A restore copies each managed file the snapshot recorded as present and
/// holds a backup of over its path under the `/etc` root, removes each
/// managed file the snapshot recorded as absent that exists now, and
/// recreates each of the snapshot's swapfiles that does not exist.
pub proof fn lemma_restore_effects(m: SnapshotMeta, f: RestoreFacts)
    requires
        facts_ok(m, f),
    ensures
        ({
            let steps = spec_restore(m, f).0;
            &&& forall|i: int|
                0 <= i < 4 && #[trigger] artifact_present(m, i) && f.backup_exists@[i] ==> steps.contains(
                    StepView::CopyFile(join_path(f.snapshot_dir@, managed(i).0), join_path(f.etc_root@, managed(i).1)),
                )
            &&& forall|i: int|
                0 <= i < 4 && !#[trigger] artifact_present(m, i) && f.target_exists@[i] ==> steps.contains(
                    StepView::RemoveFile(join_path(f.etc_root@, managed(i).1)),
                )
            &&& forall|j: int|
                0 <= j < m.swapfiles@.len() && !f.snapshot_swapfile_exists@[j] ==> steps.contains(
                    StepView::RecreateSwapfile(
                        (#[trigger] m.swapfiles@[j]).path@,
                        m.swapfiles@[j].size_mb,
                    ),
                )
        }),
{
    let files = file_steps(m, f, 4);
    let clean = cleanup_steps(m, f.current_swapfiles@);
    let again = recreate_steps(m, f.snapshot_swapfile_exists@, m.swapfiles@.len());
    let units = zram_unit_steps(m, f);
    let sysctl: (Seq<StepView>, Seq<Seq<char>>) = if m.artifacts.sysctl.present {
        (seq![StepView::ReloadSysctl], seq!["Reloaded sysctl"@])
    } else {
        (Seq::empty(), Seq::empty())
    };
    let on = swapon_steps(fstab_after(m, f));
    let t1 = swapoff_steps(m) + files.0;
    let t2 = t1 + clean.0;
    let t3 = t2 + again.0;
    let t4 = t3 + seq![StepView::DaemonReload];
    let t5 = t4 + units.0;
    let t6 = t5 + sysctl.0;
    let t7 = t6 + on.0;
    assert(spec_restore(m, f).0 == t7);
    assert forall|x: StepView| t3.contains(x) implies t7.contains(x) by {
        lemma_contains_concat(t3, seq![StepView::DaemonReload], x);
        lemma_contains_concat(t4, units.0, x);
        lemma_contains_concat(t5, sysctl.0, x);
        lemma_contains_concat(t6, on.0, x);
    }
    assert forall|i: int|
        0 <= i < 4 && #[trigger] artifact_present(m, i) && f.backup_exists@[i] implies t7.contains(
            StepView::CopyFile(join_path(f.snapshot_dir@, managed(i).0), join_path(f.etc_root@, managed(i).1)),
        ) by {
        let x = StepView::CopyFile(join_path(f.snapshot_dir@, managed(i).0), join_path(f.etc_root@, managed(i).1));
        assert(file_step(m, f, i).0[0] == x);
        lemma_file_steps_contain(m, f, 4, i, x);
        lemma_contains_concat(swapoff_steps(m), files.0, x);
        lemma_contains_concat(t1, clean.0, x);
        lemma_contains_concat(t2, again.0, x);
    }
    assert forall|i: int|
        0 <= i < 4 && !#[trigger] artifact_present(m, i) && f.target_exists@[i] implies t7.contains(
            StepView::RemoveFile(join_path(f.etc_root@, managed(i).1)),
        ) by {
        let x = StepView::RemoveFile(join_path(f.etc_root@, managed(i).1));
        assert(file_step(m, f, i).0[0] == x);
        lemma_file_steps_contain(m, f, 4, i, x);
        lemma_contains_concat(swapoff_steps(m), files.0, x);
        lemma_contains_concat(t1, clean.0, x);
        lemma_contains_concat(t2, again.0, x);
    }
    assert forall|j: int|
        0 <= j < m.swapfiles@.len() && !f.snapshot_swapfile_exists@[j] implies t7.contains(
            StepView::RecreateSwapfile((#[trigger] m.swapfiles@[j]).path@, m.swapfiles@[j].size_mb),
        ) by {
        let x = StepView::RecreateSwapfile(m.swapfiles@[j].path@, m.swapfiles@[j].size_mb);
        lemma_recreate_contains(m, f.snapshot_swapfile_exists@, m.swapfiles@.len(), j);
        lemma_contains_concat(t2, again.0, x);
    }
}

proof fn lemma_contains_concat_text(a: Seq<Seq<char>>, b: Seq<Seq<char>>, x: Seq<char>)
    ensures
        a.contains(x) ==> (a + b).contains(x),
        b.contains(x) ==> (a + b).contains(x),
{
    if a.contains(x) {
        let k = choose|k: int| 0 <= k < a.len() && a[k] == x;
        assert((a + b)[k] == x);
    }
    if b.contains(x) {
        let k = choose|k: int| 0 <= k < b.len() && b[k] == x;
        assert((a + b)[a.len() + k] == x);
    }
}

proof fn lemma_cleanup_contains(m: SnapshotMeta, current: Seq<(String, bool)>, k: int)
    requires
        0 <= k < current.len(),
        !in_snapshot(m, current[k].0@),
    ensures
        cleanup_steps(m, current).0.contains(StepView::DeactivateSwap(current[k].0@)),
        current[k].1 ==> cleanup_steps(m, current).0.contains(StepView::RemoveFile(current[k].0@))
            && cleanup_steps(m, current).1.contains("Removed swapfile "@ + current[k].0@ + " (not in snapshot)"@),
    decreases current.len(),
{
    let n = current.len() - 1;
    let prev = cleanup_steps(m, current.drop_last());
    let (path, exists) = current.last();
    let off = StepView::DeactivateSwap(current[k].0@);
    let rm = StepView::RemoveFile(current[k].0@);
    let msg = "Removed swapfile "@ + current[k].0@ + " (not in snapshot)"@;
    if k == n {
        if exists {
            let tail = seq![StepView::DeactivateSwap(path@), StepView::RemoveFile(path@)];
            assert(tail[0] == off && tail[1] == rm);
            lemma_contains_concat(prev.0, tail, off);
            lemma_contains_concat(prev.0, tail, rm);
            let r1 = prev.1.push(msg);
            assert(r1[r1.len() - 1] == msg);
        } else {
            let r0 = prev.0.push(off);
            assert(r0[r0.len() - 1] == off);
        }
    } else {
        assert(current.drop_last()[k] == current[k]);
        lemma_cleanup_contains(m, current.drop_last(), k);
        if !in_snapshot(m, path@) {
            if exists {
                let tail = seq![StepView::DeactivateSwap(path@), StepView::RemoveFile(path@)];
                lemma_contains_concat(prev.0, tail, off);
                lemma_contains_concat(prev.0, tail, rm);
                if current[k].1 {
                    let j = choose|j: int| 0 <= j < prev.1.len() && prev.1[j] == msg;
                    assert(prev.1.push("Removed swapfile "@ + path@ + " (not in snapshot)"@)[j] == msg);
                }
            } else {
                let j = choose|j: int| 0 <= j < prev.0.len() && prev.0[j] == off;
                assert(prev.0.push(StepView::DeactivateSwap(path@))[j] == off);
                if current[k].1 {
                    let j2 = choose|j: int| 0 <= j < prev.0.len() && prev.0[j] == rm;
                    assert(prev.0.push(StepView::DeactivateSwap(path@))[j2] == rm);
                }
            }
        }
    }
}

/// A restore swaps off every swapfile listed now whose path is not among the
/// snapshot's swapfiles and, when it exists, removes it and reports
/// "Removed swapfile <path> (not in snapshot)".
pub proof fn lemma_restore_removes_extra_swapfiles(m: SnapshotMeta, f: RestoreFacts, k: int)
    requires
        facts_ok(m, f),
        0 <= k < f.current_swapfiles@.len(),
        !(exists|i: int| 0 <= i < m.swapfiles@.len() && (#[trigger] m.swapfiles@[i]).path@ == f.current_swapfiles@[k].0@),
    ensures
        ({
            let path = f.current_swapfiles@[k].0@;
            let plan = spec_restore(m, f);
            &&& plan.0.contains(StepView::DeactivateSwap(path))
            &&& f.current_swapfiles@[k].1 ==> plan.0.contains(StepView::RemoveFile(path)) && plan.1.contains(
                "Removed swapfile "@ + path + " (not in snapshot)"@,
            )
        }),
{
    let path = f.current_swapfiles@[k].0@;
    let files = file_steps(m, f, 4);
    let clean = cleanup_steps(m, f.current_swapfiles@);
    let again = recreate_steps(m, f.snapshot_swapfile_exists@, m.swapfiles@.len());
    let units = zram_unit_steps(m, f);
    let sysctl: (Seq<StepView>, Seq<Seq<char>>) = if m.artifacts.sysctl.present {
        (seq![StepView::ReloadSysctl], seq!["Reloaded sysctl"@])
    } else {
        (Seq::empty(), Seq::empty())
    };
    let on = swapon_steps(fstab_after(m, f));
    let t1 = swapoff_steps(m) + files.0;
    let t2 = t1 + clean.0;
    let t3 = t2 + again.0;
    let t4 = t3 + seq![StepView::DaemonReload];
    let t5 = t4 + units.0;
    let t6 = t5 + sysctl.0;
    let t7 = t6 + on.0;
    assert(spec_restore(m, f).0 == t7);
    let m1 = files.1 + clean.1;
    let m2 = m1 + again.1;
    let m3 = m2 + seq!["Reloaded systemd"@];
    let m4 = m3 + units.1;
    let m5 = m4 + sysctl.1;
    let m6 = m5 + on.1;
    assert(spec_restore(m, f).1 == m6);
    lemma_cleanup_contains(m, f.current_swapfiles@, k);
    assert forall|x: StepView| clean.0.contains(x) implies t7.contains(x) by {
        lemma_contains_concat(t1, clean.0, x);
        lemma_contains_concat(t2, again.0, x);
        lemma_contains_concat(t3, seq![StepView::DaemonReload], x);
        lemma_contains_concat(t4, units.0, x);
        lemma_contains_concat(t5, sysctl.0, x);
        lemma_contains_concat(t6, on.0, x);
    }
    let msg = "Removed swapfile "@ + path + " (not in snapshot)"@;
    if f.current_swapfiles@[k].1 {
        lemma_contains_concat_text(files.1, clean.1, msg);
        lemma_contains_concat_text(m1, again.1, msg);
        lemma_contains_concat_text(m2, seq!["Reloaded systemd"@], msg);
        lemma_contains_concat_text(m3, units.1, msg);
        lemma_contains_concat_text(m4, sysctl.1, msg);
        lemma_contains_concat_text(m5, on.1, msg);
    }
    assert(clean.0.contains(StepView::DeactivateSwap(path)));
}

} // verus!
