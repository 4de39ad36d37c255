//! Health checks: what is wrong or worth knowing about the swap setup.
use vstd::prelude::*;

use crate::checks::{max_priority, max_swap_priority, priority_inverted, spec_priority_inverted, zram_zswap_conflict};
use crate::detect::{spec_package_name, zram_generator_package_name, DetectionReport, ZramBackend};
use crate::num::{int_str, push_int};
use crate::status::{StatusReport, SwapEntry};
use crate::swap_partition::{missing_issues, SwapPartition};
use crate::swapfile_btrfs::NodatacowStatus;
use crate::text::{chars_of, eq_str, owned, push_str};

verus! {

#[derive(Debug, Clone, Copy, PartialEq, Eq, Structural)]
pub enum IssueSeverity {
    Info,
    Warning,
    Error,
}

#[derive(Debug, Clone)]
pub struct DoctorIssue {
    pub severity: IssueSeverity,
    pub code: String,
    pub message: String,
    pub suggestion: Option<String>,
    pub action: Option<DoctorAction>,
}

#[derive(Debug, Clone)]
pub enum DoctorAction {
    PrepareBtrfsSwapfile { path: String },
}

#[derive(Debug, Clone)]
pub struct DoctorReport {
    pub healthy: bool,
    pub issues: Vec<DoctorIssue>,
}

/// An issue as text; the action is the swapfile path to prepare.
pub struct IssueView {
    pub severity: IssueSeverity,
    pub code: Seq<char>,
    pub message: Seq<char>,
    pub suggestion: Option<Seq<char>>,
    pub action: Option<Seq<char>>,
}

impl View for DoctorIssue {
    type V = IssueView;

    open spec fn view(&self) -> IssueView {
        IssueView {
            severity: self.severity,
            code: self.code@,
            message: self.message@,
            suggestion: crate::apply::types::sv(self.suggestion),
            action: match self.action {
                Some(DoctorAction::PrepareBtrfsSwapfile { path }) => Some(path@),
                None => None,
            },
        }
    }
}

pub open spec fn issues_view(v: Seq<DoctorIssue>) -> Seq<IssueView> {
    v.map_values(|i: DoctorIssue| i@)
}

/// What the checks read from the host besides detection and status.
#[derive(Debug, Clone)]
pub struct DoctorFacts {
    /// The legacy zramswap.service is active.
    pub zramswap_service_active: bool,
    /// Whether zswap is enabled; `None` when unknown.
    pub zswap_enabled: Option<bool>,
    /// The hibernation resume device is a zram device.
    pub hibernation_blocks_zram: bool,
    /// The swapfile backend lists at least one swapfile (false when the
    /// listing failed).
    pub has_managed_swapfile: bool,
    /// The nodatacow status of each listed swapfile whose check succeeded,
    /// in list order.
    pub swapfile_statuses: Vec<NodatacowStatus>,
    /// The issues of the check for missing swap partitions.
    pub partition_issues: Vec<DoctorIssue>,
}

pub open spec fn issue(
    severity: IssueSeverity,
    code: Seq<char>,
    message: Seq<char>,
    suggestion: Seq<char>,
) -> IssueView {
    IssueView { severity, code, message, suggestion: Some(suggestion), action: None }
}

pub open spec fn issue_if(c: bool, i: IssueView) -> Seq<IssueView> {
    if c {
        seq![i]
    } else {
        Seq::empty()
    }
}

/// The checks of the detected setup: init system, writable `/etc`, zram
/// backend and package, legacy zram-tools and its service.
pub open spec fn setup_issues(d: DetectionReport, no_devices: bool, zramswap_active: bool) -> Seq<IssueView> {
    issue_if(
        d.init_system@ != "systemd"@,
        issue(
            IssueSeverity::Warning,
            "non_systemd"@,
            "Init system is '"@ + d.init_system@ + "', not systemd"@,
            "XZram v1 targets systemd-based distros"@,
        ),
    ) + issue_if(
        !d.etc_writable || d.immutable_os,
        issue(
            IssueSeverity::Warning,
            "immutable_etc"@,
            "/etc is read-only or this OS uses an immutable layout"@,
            "On immutable distros, layer packages with rpm-ostree or use a writable overlay. Privileged apply still uses polkit/xzram-helper when /etc is writable for root."@,
        ),
    ) + issue_if(
        d.zram_backend == ZramBackend::Absent && no_devices,
        issue(
            IssueSeverity::Info,
            "no_zram"@,
            "No zram backend detected and no active zram devices"@,
            "Install zram-generator and run 'xzram zram set'"@,
        ),
    ) + issue_if(
        !d.zram_generator_installed && d.zram_backend == ZramBackend::SystemdZramGenerator,
        issue(
            IssueSeverity::Warning,
            "zram_generator_missing"@,
            "zram-generator config exists but package may not be installed"@,
            "Install package: "@ + spec_package_name(d.package_manager),
        ),
    ) + issue_if(
        d.zram_backend == ZramBackend::ZramTools,
        issue(
            IssueSeverity::Warning,
            "zram_tools_legacy"@,
            "Legacy zram-tools configuration detected"@,
            "Run 'xzram zram migrate' to stage zram-generator config, then 'xzram apply'"@,
        ),
    ) + issue_if(
        zramswap_active,
        issue(
            IssueSeverity::Info,
            "zramswap_service_active"@,
            "Legacy zramswap.service is still active"@,
            "Run 'xzram zram migrate' and apply to disable zram-tools in favor of zram-generator"@,
        ),
    )
}

/// The checks of zswap, hibernation and the root filesystem.
pub open spec fn host_issues(
    zswap: Option<bool>,
    hibernation: bool,
    root_fs: Option<Seq<char>>,
    has_managed_swapfile: bool,
) -> Seq<IssueView> {
    issue_if(
        zswap == Some(true),
        issue(
            IssueSeverity::Warning,
            "zswap_enabled"@,
            "zswap is enabled and may interfere with zram effectiveness"@,
            "Disable zswap: echo 0 | sudo tee /sys/module/zswap/parameters/enabled, or add zswap.enabled=0 to kernel cmdline"@,
        ),
    ) + issue_if(
        hibernation,
        issue(
            IssueSeverity::Warning,
            "hibernate_zram"@,
            "Hibernation resume device points to zram"@,
            "Hibernation requires disk-backed swap as resume device, not zram"@,
        ),
    ) + issue_if(
        root_fs == Some("btrfs"@) && !has_managed_swapfile,
        issue(
            IssueSeverity::Info,
            "btrfs_root"@,
            "Root filesystem is btrfs; swapfiles require nodatacow"@,
            "Before creating a swapfile: xzram swapfile prepare <path> (sets chattr +C on the parent directory)"@,
        ),
    ) + issue_if(
        root_fs == Some("zfs"@),
        issue(
            IssueSeverity::Warning,
            "zfs_root"@,
            "Root filesystem is ZFS; swapfiles have special requirements"@,
            "Prefer a dedicated swap partition or zvol on ZFS systems"@,
        ),
    )
}

/// A warning, with the prepare action, for each btrfs swapfile that is not
/// nodatacow-ready.
pub open spec fn nodatacow_issues(statuses: Seq<NodatacowStatus>) -> Seq<IssueView>
    decreases statuses.len(),
{
    if statuses.len() == 0 {
        Seq::empty()
    } else {
        let s = statuses.last();
        nodatacow_issues(statuses.drop_last()) + issue_if(
            s.on_btrfs && !s.ready,
            IssueView {
                severity: IssueSeverity::Warning,
                code: "btrfs_swapfile_nodatacow"@,
                message: "Swapfile "@ + s.swapfile_path@ + " is on btrfs without nodatacow: "@ + s.message@,
                suggestion: Some("xzram swapfile prepare "@ + s.swapfile_path@),
                action: Some(s.swapfile_path@),
            },
        )
    }
}

pub open spec fn prio_or_zero(p: Option<i32>) -> i32 {
    match p {
        Some(x) => x,
        None => 0,
    }
}

/// The checks of swap priorities and of zram next to zswap.
pub open spec fn swap_issues(swaps: Seq<SwapEntry>, no_devices: bool, zswap: Option<bool>) -> Seq<IssueView> {
    issue_if(
        spec_priority_inverted(swaps),
        issue(
            IssueSeverity::Warning,
            "priority_inverted"@,
            "Disk swap priority ("@ + int_str(prio_or_zero(max_priority(swaps, false)) as int)
                + ") >= zram priority ("@ + int_str(prio_or_zero(max_priority(swaps, true)) as int) + ")"@,
            "Set zram swap-priority higher (e.g. 100) than disk swap (e.g. 10)"@,
        ),
    ) + issue_if(
        !no_devices && zswap == Some(true),
        issue(
            IssueSeverity::Error,
            "zram_zswap_conflict"@,
            "Both zram and zswap are active; zram compression is largely bypassed"@,
            "Disable zswap before using zram"@,
        ),
    )
}

/// All issues, in the order the checks run.
pub open spec fn spec_doctor(d: DetectionReport, s: StatusReport, f: DoctorFacts) -> Seq<IssueView> {
    let no_devices = s.zram_devices@.len() == 0;
    setup_issues(d, no_devices, f.zramswap_service_active) + host_issues(
        f.zswap_enabled,
        f.hibernation_blocks_zram,
        crate::apply::types::sv(d.root_filesystem),
        f.has_managed_swapfile,
    ) + nodatacow_issues(f.swapfile_statuses@) + swap_issues(s.swaps@, no_devices, f.zswap_enabled) + issues_view(
        f.partition_issues@,
    )
}

pub open spec fn has_error(v: Seq<IssueView>) -> bool {
    exists|i: int| 0 <= i < v.len() && (#[trigger] v[i]).severity == IssueSeverity::Error
}

fn push_issue(issues: &mut Vec<DoctorIssue>, i: DoctorIssue)
    ensures
        issues_view(final(issues)@) == issues_view(old(issues)@).push(i@),
{
    issues.push(i);
    assert(issues_view(issues@) =~= issues_view(old(issues)@).push(i@));
}

fn plain_issue(severity: IssueSeverity, code: &str, message: String, suggestion: String) -> (i: DoctorIssue)
    ensures
        i@ == issue(severity, code@, message@, suggestion@),
{
    DoctorIssue { severity, code: owned(code), message, suggestion: Some(suggestion), action: None }
}

fn check_setup(issues: &mut Vec<DoctorIssue>, detection: &DetectionReport, no_devices: bool, zramswap_active: bool)
    ensures
        issues_view(final(issues)@) == issues_view(old(issues)@) + setup_issues(*detection, no_devices, zramswap_active),
{
    let ghost start = issues_view(issues@);
    if !eq_str(&chars_of(detection.init_system.as_str()), "systemd") {
        let mut m = owned("Init system is '");
        push_str(&mut m, detection.init_system.as_str());
        push_str(&mut m, "', not systemd");
        push_issue(
            issues,
            plain_issue(IssueSeverity::Warning, "non_systemd", m, owned("XZram v1 targets systemd-based distros")),
        );
    }
    let ghost s1 = issues_view(issues@);
    if !detection.etc_writable || detection.immutable_os {
        push_issue(
            issues,
            plain_issue(
                IssueSeverity::Warning,
                "immutable_etc",
                owned("/etc is read-only or this OS uses an immutable layout"),
                owned("On immutable distros, layer packages with rpm-ostree or use a writable overlay. Privileged apply still uses polkit/xzram-helper when /etc is writable for root."),
            ),
        );
    }
    let ghost s2 = issues_view(issues@);
    if detection.zram_backend == ZramBackend::Absent && no_devices {
        push_issue(
            issues,
            plain_issue(
                IssueSeverity::Info,
                "no_zram",
                owned("No zram backend detected and no active zram devices"),
                owned("Install zram-generator and run 'xzram zram set'"),
            ),
        );
    }
    let ghost s3 = issues_view(issues@);
    if !detection.zram_generator_installed && detection.zram_backend == ZramBackend::SystemdZramGenerator {
        let mut sug = owned("Install package: ");
        push_str(&mut sug, zram_generator_package_name(detection.package_manager));
        push_issue(
            issues,
            plain_issue(
                IssueSeverity::Warning,
                "zram_generator_missing",
                owned("zram-generator config exists but package may not be installed"),
                sug,
            ),
        );
    }
    let ghost s4 = issues_view(issues@);
    if detection.zram_backend == ZramBackend::ZramTools {
        push_issue(
            issues,
            plain_issue(
                IssueSeverity::Warning,
                "zram_tools_legacy",
                owned("Legacy zram-tools configuration detected"),
                owned("Run 'xzram zram migrate' to stage zram-generator config, then 'xzram apply'"),
            ),
        );
    }
    let ghost s5 = issues_view(issues@);
    if zramswap_active {
        push_issue(
            issues,
            plain_issue(
                IssueSeverity::Info,
                "zramswap_service_active",
                owned("Legacy zramswap.service is still active"),
                owned("Run 'xzram zram migrate' and apply to disable zram-tools in favor of zram-generator"),
            ),
        );
    }
    assert(issues_view(issues@) =~= start + setup_issues(*detection, no_devices, zramswap_active));
}

fn fs_is(fs: &Option<String>, name: &str) -> (r: bool)
    ensures
        r == (crate::apply::types::sv(*fs) == Some(name@)),
{
    match fs {
        Some(f) => eq_str(&chars_of(f.as_str()), name),
        None => false,
    }
}

fn check_host(
    issues: &mut Vec<DoctorIssue>,
    zswap: Option<bool>,
    hibernation: bool,
    root_fs: &Option<String>,
    has_managed_swapfile: bool,
)
    ensures
        issues_view(final(issues)@) == issues_view(old(issues)@) + host_issues(
            zswap,
            hibernation,
            crate::apply::types::sv(*root_fs),
            has_managed_swapfile,
        ),
{
    let ghost start = issues_view(issues@);
    if zswap == Some(true) {
        push_issue(
            issues,
            plain_issue(
                IssueSeverity::Warning,
                "zswap_enabled",
                owned("zswap is enabled and may interfere with zram effectiveness"),
                owned("Disable zswap: echo 0 | sudo tee /sys/module/zswap/parameters/enabled, or add zswap.enabled=0 to kernel cmdline"),
            ),
        );
    }
    let ghost s1 = issues_view(issues@);
    if hibernation {
        push_issue(
            issues,
            plain_issue(
                IssueSeverity::Warning,
                "hibernate_zram",
                owned("Hibernation resume device points to zram"),
                owned("Hibernation requires disk-backed swap as resume device, not zram"),
            ),
        );
    }
    let ghost s2 = issues_view(issues@);
    if fs_is(root_fs, "btrfs") && !has_managed_swapfile {
        push_issue(
            issues,
            plain_issue(
                IssueSeverity::Info,
                "btrfs_root",
                owned("Root filesystem is btrfs; swapfiles require nodatacow"),
                owned("Before creating a swapfile: xzram swapfile prepare <path> (sets chattr +C on the parent directory)"),
            ),
        );
    }
    let ghost s3 = issues_view(issues@);
    if fs_is(root_fs, "zfs") {
        push_issue(
            issues,
            plain_issue(
                IssueSeverity::Warning,
                "zfs_root",
                owned("Root filesystem is ZFS; swapfiles have special requirements"),
                owned("Prefer a dedicated swap partition or zvol on ZFS systems"),
            ),
        );
    }
    assert(issues_view(issues@) =~= start + host_issues(
        zswap,
        hibernation,
        crate::apply::types::sv(*root_fs),
        has_managed_swapfile,
    ));
}

fn check_nodatacow(issues: &mut Vec<DoctorIssue>, statuses: &Vec<NodatacowStatus>)
    ensures
        issues_view(final(issues)@) == issues_view(old(issues)@) + nodatacow_issues(statuses@),
{
    let ghost start = issues_view(issues@);
    assert(statuses@.subrange(0, 0) =~= Seq::<NodatacowStatus>::empty());
    assert(start + nodatacow_issues(Seq::<NodatacowStatus>::empty()) =~= start);
    let mut i: usize = 0;
    while i < statuses.len()
        invariant
            i <= statuses.len(),
            issues_view(issues@) == start + nodatacow_issues(statuses@.subrange(0, i as int)),
        decreases statuses.len() - i,
    {
        let ghost pre = statuses@.subrange(0, (i + 1) as int);
        assert(pre.drop_last() =~= statuses@.subrange(0, i as int));
        assert(pre.last() == statuses@[i as int]);
        let ghost before = issues_view(issues@);
        let s = &statuses[i];
        if s.on_btrfs && !s.ready {
            let mut m = owned("Swapfile ");
            push_str(&mut m, s.swapfile_path.as_str());
            push_str(&mut m, " is on btrfs without nodatacow: ");
            push_str(&mut m, s.message.as_str());
            let mut sug = owned("xzram swapfile prepare ");
            push_str(&mut sug, s.swapfile_path.as_str());
            push_issue(
                issues,
                DoctorIssue {
                    severity: IssueSeverity::Warning,
                    code: owned("btrfs_swapfile_nodatacow"),
                    message: m,
                    suggestion: Some(sug),
                    action: Some(DoctorAction::PrepareBtrfsSwapfile { path: owned(s.swapfile_path.as_str()) }),
                },
            );
        }
        i = i + 1;
        assert(issues_view(issues@) =~= start + nodatacow_issues(statuses@.subrange(0, i as int)));
    }
    assert(statuses@.subrange(0, statuses.len() as int) =~= statuses@);
}

fn check_swaps(issues: &mut Vec<DoctorIssue>, swaps: &Vec<SwapEntry>, no_devices: bool, zswap: Option<bool>)
    ensures
        issues_view(final(issues)@) == issues_view(old(issues)@) + swap_issues(swaps@, no_devices, zswap),
{
    let ghost start = issues_view(issues@);
    if priority_inverted(swaps.as_slice()) {
        let zram_prio: i32 = match max_swap_priority(swaps.as_slice(), true) {
            Some(p) => p,
            None => 0,
        };
        let disk_prio: i32 = match max_swap_priority(swaps.as_slice(), false) {
            Some(p) => p,
            None => 0,
        };
        let mut m = owned("Disk swap priority (");
        push_int(&mut m, disk_prio as i64);
        push_str(&mut m, ") >= zram priority (");
        push_int(&mut m, zram_prio as i64);
        push_str(&mut m, ")");
        push_issue(
            issues,
            plain_issue(
                IssueSeverity::Warning,
                "priority_inverted",
                m,
                owned("Set zram swap-priority higher (e.g. 100) than disk swap (e.g. 10)"),
            ),
        );
    }
    let ghost s1 = issues_view(issues@);
    if !no_devices && zswap == Some(true) {
        push_issue(
            issues,
            plain_issue(
                IssueSeverity::Error,
                "zram_zswap_conflict",
                owned("Both zram and zswap are active; zram compression is largely bypassed"),
                owned("Disable zswap before using zram"),
            ),
        );
    }
    assert(issues_view(issues@) =~= start + swap_issues(swaps@, no_devices, zswap));
}

fn any_error(issues: &Vec<DoctorIssue>) -> (r: bool)
    ensures
        r == has_error(issues_view(issues@)),
{
    let ghost v = issues_view(issues@);
    let mut i: usize = 0;
    while i < issues.len()
        invariant
            i <= issues.len(),
            v == issues_view(issues@),
            forall|j: int| 0 <= j < i ==> (#[trigger] v[j]).severity != IssueSeverity::Error,
        decreases issues.len() - i,
    {
        if issues[i].severity == IssueSeverity::Error {
            assert(v[i as int].severity == IssueSeverity::Error);
            return true;
        }
        i = i + 1;
    }
    false
}

/// Runs every check on the detected setup and the host facts. The report is
/// healthy exactly when no issue is an error.
pub fn doctor(detection: &DetectionReport, status: &StatusReport, facts: DoctorFacts) -> (r: DoctorReport)
    ensures
        issues_view(r.issues@) == spec_doctor(*detection, *status, facts),
        r.healthy == !has_error(spec_doctor(*detection, *status, facts)),
{
    let ghost f = facts;
    let mut issues: Vec<DoctorIssue> = Vec::new();
    assert(issues_view(issues@) =~= Seq::<IssueView>::empty());
    let no_devices = status.zram_devices.len() == 0;
    check_setup(&mut issues, detection, no_devices, facts.zramswap_service_active);
    check_host(
        &mut issues,
        facts.zswap_enabled,
        facts.hibernation_blocks_zram,
        &detection.root_filesystem,
        facts.has_managed_swapfile,
    );
    check_nodatacow(&mut issues, &facts.swapfile_statuses);
    check_swaps(&mut issues, &status.swaps, no_devices, facts.zswap_enabled);
    let mut partition_issues = facts.partition_issues;
    let ghost pi = partition_issues@;
    issues.append(&mut partition_issues);
    assert(issues_view(issues@) =~= spec_doctor(*detection, *status, f));
    let healthy = !any_error(&issues);
    DoctorReport { healthy, issues }
}

// ---------------------------------------------------------------------------
// Laws of the report
// ---------------------------------------------------------------------------

proof fn lemma_error_concat(a: Seq<IssueView>, b: Seq<IssueView>)
    ensures
        has_error(a + b) == (has_error(a) || has_error(b)),
{
    let c = a + b;
    if has_error(c) {
        let i = choose|i: int| 0 <= i < c.len() && (#[trigger] c[i]).severity == IssueSeverity::Error;
        if i < a.len() {
            assert(a[i].severity == IssueSeverity::Error);
        } else {
            assert(b[i - a.len()].severity == IssueSeverity::Error);
        }
    }
    if has_error(a) {
        let i = choose|i: int| 0 <= i < a.len() && (#[trigger] a[i]).severity == IssueSeverity::Error;
        assert(c[i].severity == IssueSeverity::Error);
    }
    if has_error(b) {
        let i = choose|i: int| 0 <= i < b.len() && (#[trigger] b[i]).severity == IssueSeverity::Error;
        assert(c[a.len() + i].severity == IssueSeverity::Error);
    }
}

proof fn lemma_nodatacow_no_error(statuses: Seq<NodatacowStatus>)
    ensures
        !has_error(nodatacow_issues(statuses)),
    decreases statuses.len(),
{
    if statuses.len() > 0 {
        lemma_nodatacow_no_error(statuses.drop_last());
        let s = statuses.last();
        let tail = issue_if(
            s.on_btrfs && !s.ready,
            IssueView {
                severity: IssueSeverity::Warning,
                code: "btrfs_swapfile_nodatacow"@,
                message: "Swapfile "@ + s.swapfile_path@ + " is on btrfs without nodatacow: "@ + s.message@,
                suggestion: Some("xzram swapfile prepare "@ + s.swapfile_path@),
                action: Some(s.swapfile_path@),
            },
        );
        lemma_error_concat(nodatacow_issues(statuses.drop_last()), tail);
    }
}

/// Every check but the zram/zswap conflict reports at most a warning: where
/// the partition check reports no error, the report is healthy exactly when
/// zram devices and an enabled zswap are not both present.
pub proof fn lemma_healthy_iff_no_zswap_conflict(d: DetectionReport, s: StatusReport, f: DoctorFacts)
    requires
        !has_error(issues_view(f.partition_issues@)),
    ensures
        !has_error(spec_doctor(d, s, f)) <==> !(s.zram_devices@.len() > 0 && f.zswap_enabled == Some(true)),
{
    let no_devices = s.zram_devices@.len() == 0;
    let a = setup_issues(d, no_devices, f.zramswap_service_active);
    let b = host_issues(
        f.zswap_enabled,
        f.hibernation_blocks_zram,
        crate::apply::types::sv(d.root_filesystem),
        f.has_managed_swapfile,
    );
    let c = nodatacow_issues(f.swapfile_statuses@);
    let e = swap_issues(s.swaps@, no_devices, f.zswap_enabled);
    let p = issues_view(f.partition_issues@);
    assert(!has_error(a));
    assert(!has_error(b));
    lemma_nodatacow_no_error(f.swapfile_statuses@);
    if !no_devices && f.zswap_enabled == Some(true) {
        let n = e.len() - 1;
        assert(e[n].severity == IssueSeverity::Error);
    } else {
        assert(!has_error(e));
    }
    lemma_error_concat(a, b);
    lemma_error_concat(a + b, c);
    lemma_error_concat(a + b + c, e);
    lemma_error_concat(a + b + c + e, p);
}

/// The check for missing swap partitions reports warnings only.
pub proof fn lemma_missing_partitions_no_error(parts: Seq<SwapPartition>, exists: Seq<bool>)
    ensures
        !has_error(missing_issues(parts, exists)),
    decreases parts.len(),
{
    if parts.len() > 0 {
        let prev = missing_issues(parts.drop_last(), exists);
        lemma_missing_partitions_no_error(parts.drop_last(), exists);
        let n = parts.len() - 1;
        let p = parts[n];
        if !p.active && !exists[n] {
            let w = issue(
                IssueSeverity::Warning,
                "swap_partition_missing"@,
                "fstab swap entry '"@ + p.device@ + "' points to a missing device"@,
                "Remove stale fstab entry or attach the swap partition"@,
            );
            lemma_error_concat(prev, seq![w]);
            assert(prev.push(w) == prev + seq![w]);
        }
    }
}

/// With the partition issues of the missing-partition check (the facts the
/// program gathers), the report is healthy exactly when zram devices and an
/// enabled zswap are not both present.
pub proof fn lemma_healthy_iff_no_zswap_conflict_checked(
    d: DetectionReport,
    s: StatusReport,
    f: DoctorFacts,
    parts: Seq<SwapPartition>,
    exists: Seq<bool>,
)
    requires
        issues_view(f.partition_issues@) == missing_issues(parts, exists),
    ensures
        !has_error(spec_doctor(d, s, f)) <==> !(s.zram_devices@.len() > 0 && f.zswap_enabled == Some(true)),
{
    lemma_missing_partitions_no_error(parts, exists);
    lemma_healthy_iff_no_zswap_conflict(d, s, f);
}

} // verus!
