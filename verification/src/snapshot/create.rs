//! Building snapshots: the captured state and its hash, ids, dates, labels
//! and summaries of pending changes.
use vstd::prelude::*;

use sha2::Digest;

use super::paths::{managed_etc_files, managed_files};
use super::types::{trigger_name, SnapshotArtifact, SnapshotArtifacts, SnapshotMeta, SnapshotSwapfile, SnapshotTrigger};
use crate::apply::pending::spec_is_empty;
use crate::apply::types::{sv, PendingConfig, PendingView};
use crate::num::{hex_str, nat_str, push_hex, push_nat, push_nat_padded, zero_pad};
use crate::status::ZramDevice;
use crate::text::{chars_of, join_with, owned, push_joined, push_str};

verus! {

// ---------------------------------------------------------------------------
// Summaries and labels
// ---------------------------------------------------------------------------

pub open spec fn part_if(c: bool, p: Seq<char>) -> Seq<Seq<char>> {
    if c {
        seq![p]
    } else {
        Seq::empty()
    }
}

pub open spec fn or_text(o: Option<Seq<char>>, d: Seq<char>) -> Seq<char> {
    match o {
        Some(s) => s,
        None => d,
    }
}

/// One phrase per staged change, in a fixed order.
pub open spec fn summary_parts(p: PendingView) -> Seq<Seq<char>> {
    part_if(p.disable_zram, "disable ZRAM"@) + match p.zram {
        Some(z) => seq![
            "ZRAM ("@ + or_text(z.compression_algorithm, "default"@) + ", "@ + or_text(z.zram_size, "default size"@)
                + ")"@,
        ],
        None => Seq::empty(),
    } + match p.swapfile {
        Some(f) => seq!["swapfile "@ + f.path],
        None => Seq::empty(),
    } + match p.swapfile_resize {
        Some(r) => seq!["resize "@ + r.path + " to "@ + nat_str(r.size_mb as nat) + " MiB"@],
        None => Seq::empty(),
    } + match p.remove_swapfile {
        Some(path) => seq!["remove swapfile "@ + path],
        None => Seq::empty(),
    } + part_if(p.sysctl is Some, "sysctl"@)
}

pub open spec fn spec_pending_summary(p: PendingView) -> Seq<char> {
    join_with(summary_parts(p), ", "@)
}

fn push_part(parts: &mut Vec<String>, s: String)
    ensures
        final(parts)@.map_values(|x: String| x@) == old(parts)@.map_values(|x: String| x@).push(s@),
{
    parts.push(s);
    assert(parts@.map_values(|x: String| x@) =~= old(parts)@.map_values(|x: String| x@).push(s@));
}

/// A one-line description of the staged changes, e.g.
/// `ZRAM (zstd, 4096), swapfile /swap/swapfile`.
pub fn pending_summary(pending: &PendingConfig) -> (s: String)
    ensures
        s@ == spec_pending_summary(pending@),
{
    let mut parts: Vec<String> = Vec::new();
    let ghost p = pending@;
    assert(parts@.map_values(|x: String| x@) =~= Seq::<Seq<char>>::empty());
    if pending.disable_zram {
        push_part(&mut parts, owned("disable ZRAM"));
    }
    let ghost a1 = parts@.map_values(|x: String| x@);
    if let Some(z) = &pending.zram {
        let mut t = owned("ZRAM (");
        match &z.compression_algorithm {
            Some(a) => push_str(&mut t, a.as_str()),
            None => push_str(&mut t, "default"),
        }
        push_str(&mut t, ", ");
        match &z.zram_size {
            Some(sz) => push_str(&mut t, sz.as_str()),
            None => push_str(&mut t, "default size"),
        }
        push_str(&mut t, ")");
        push_part(&mut parts, t);
    }
    let ghost a2 = parts@.map_values(|x: String| x@);
    if let Some(f) = &pending.swapfile {
        let mut t = owned("swapfile ");
        push_str(&mut t, f.path.as_str());
        push_part(&mut parts, t);
    }
    let ghost a3 = parts@.map_values(|x: String| x@);
    if let Some(r) = &pending.swapfile_resize {
        let mut t = owned("resize ");
        push_str(&mut t, r.path.as_str());
        push_str(&mut t, " to ");
        push_nat(&mut t, r.size_mb);
        push_str(&mut t, " MiB");
        push_part(&mut parts, t);
    }
    let ghost a4 = parts@.map_values(|x: String| x@);
    if let Some(path) = &pending.remove_swapfile {
        let mut t = owned("remove swapfile ");
        push_str(&mut t, path.as_str());
        push_part(&mut parts, t);
    }
    let ghost a5 = parts@.map_values(|x: String| x@);
    if pending.sysctl.is_some() {
        push_part(&mut parts, owned("sysctl"));
    }
    assert(parts@.map_values(|x: String| x@) =~= summary_parts(p));
    let mut s = String::new();
    push_joined(&mut s, parts.as_slice(), ", ");
    assert(s@ =~= spec_pending_summary(p));
    s
}

proof fn lemma_join_nonempty(parts: Seq<Seq<char>>, sep: Seq<char>)
    requires
        parts.len() > 0,
        parts.last().len() > 0,
    ensures
        join_with(parts, sep).len() > 0,
{
}

proof fn lemma_parts_nonempty(a: Seq<Seq<char>>, b: Seq<Seq<char>>)
    requires
        forall|i: int| 0 <= i < a.len() ==> (#[trigger] a[i]).len() > 0,
        forall|i: int| 0 <= i < b.len() ==> (#[trigger] b[i]).len() > 0,
    ensures
        forall|i: int| 0 <= i < (a + b).len() ==> (#[trigger] (a + b)[i]).len() > 0,
{
    assert forall|i: int| 0 <= i < (a + b).len() implies (#[trigger] (a + b)[i]).len() > 0 by {
        if i < a.len() {
            assert((a + b)[i] == a[i]);
        } else {
            assert((a + b)[i] == b[i - a.len()]);
        }
    }
}

/// The summary of a pending configuration is empty exactly when nothing is
/// pending.
pub proof fn lemma_summary_empty_iff_nothing_pending(p: PendingView)
    ensures
        (spec_pending_summary(p).len() == 0) == spec_is_empty(p),
{
    reveal_strlit("disable ZRAM");
    reveal_strlit("ZRAM (");
    reveal_strlit("swapfile ");
    reveal_strlit("resize ");
    reveal_strlit("remove swapfile ");
    reveal_strlit("sysctl");
    let p1 = part_if(p.disable_zram, "disable ZRAM"@);
    let p2: Seq<Seq<char>> = match p.zram {
        Some(z) => seq![
            "ZRAM ("@ + or_text(z.compression_algorithm, "default"@) + ", "@ + or_text(z.zram_size, "default size"@)
                + ")"@,
        ],
        None => Seq::empty(),
    };
    let p3: Seq<Seq<char>> = match p.swapfile {
        Some(f) => seq!["swapfile "@ + f.path],
        None => Seq::empty(),
    };
    let p4: Seq<Seq<char>> = match p.swapfile_resize {
        Some(r) => seq!["resize "@ + r.path + " to "@ + nat_str(r.size_mb as nat) + " MiB"@],
        None => Seq::empty(),
    };
    let p5: Seq<Seq<char>> = match p.remove_swapfile {
        Some(path) => seq!["remove swapfile "@ + path],
        None => Seq::empty(),
    };
    let p6 = part_if(p.sysctl is Some, "sysctl"@);
    let parts = summary_parts(p);
    assert(parts == p1 + p2 + p3 + p4 + p5 + p6);
    assert(forall|i: int| 0 <= i < p1.len() ==> (#[trigger] p1[i]).len() > 0);
    assert(forall|i: int| 0 <= i < p2.len() ==> (#[trigger] p2[i]).len() > 0);
    assert(forall|i: int| 0 <= i < p3.len() ==> (#[trigger] p3[i]).len() > 0);
    assert(forall|i: int| 0 <= i < p4.len() ==> (#[trigger] p4[i]).len() > 0);
    assert(forall|i: int| 0 <= i < p5.len() ==> (#[trigger] p5[i]).len() > 0);
    assert(forall|i: int| 0 <= i < p6.len() ==> (#[trigger] p6[i]).len() > 0);
    lemma_parts_nonempty(p1, p2);
    lemma_parts_nonempty(p1 + p2, p3);
    lemma_parts_nonempty(p1 + p2 + p3, p4);
    lemma_parts_nonempty(p1 + p2 + p3 + p4, p5);
    lemma_parts_nonempty(p1 + p2 + p3 + p4 + p5, p6);
    if spec_is_empty(p) {
        assert(parts =~= Seq::<Seq<char>>::empty());
    } else {
        assert(parts.len() > 0);
        assert(parts.last() == parts[parts.len() - 1]);
        lemma_join_nonempty(parts, ", "@);
    }
}

/// A UTC date and time for labels, in the approximate calendar the labels
/// have always used (31-day months, 365-day years), e.g.
/// `01 01 1970, 00:00 UTC`.
pub open spec fn spec_human_date(secs: u64) -> Seq<char> {
    let days = secs / 86400;
    let t = secs % 86400;
    zero_pad(nat_str((days % 31 + 1) as nat), 2) + " "@ + zero_pad(nat_str(((days / 31) % 12 + 1) as nat), 2) + " "@
        + nat_str((1970 + days / 365) as nat) + ", "@ + zero_pad(nat_str((t / 3600) as nat), 2) + ":"@ + zero_pad(
        nat_str(((t % 3600) / 60) as nat),
        2,
    ) + " UTC"@
}

/// The label date for `secs` seconds since the Unix epoch.
pub fn human_date(secs: u64) -> (s: String)
    ensures
        s@ == spec_human_date(secs),
{
    let days = secs / 86400;
    let t = secs % 86400;
    let mut s = String::new();
    push_nat_padded(&mut s, days % 31 + 1, 2);
    push_str(&mut s, " ");
    push_nat_padded(&mut s, (days / 31) % 12 + 1, 2);
    push_str(&mut s, " ");
    push_nat(&mut s, 1970 + days / 365);
    push_str(&mut s, ", ");
    push_nat_padded(&mut s, t / 3600, 2);
    push_str(&mut s, ":");
    push_nat_padded(&mut s, (t % 3600) / 60, 2);
    push_str(&mut s, " UTC");
    assert(s@ =~= spec_human_date(secs));
    s
}

/// The default label of a snapshot taken at `date`.
pub open spec fn spec_default_label(trigger: SnapshotTrigger, pending: Option<PendingView>, date: Seq<char>) -> Seq<char> {
    match trigger {
        SnapshotTrigger::AppOpen => "Startup baseline — "@ + date,
        SnapshotTrigger::Manual => "Manual snapshot — "@ + date,
        SnapshotTrigger::PreApply => {
            let summary = match pending {
                Some(p) => spec_pending_summary(p),
                None => Seq::empty(),
            };
            if summary.len() == 0 {
                "Before apply — "@ + date
            } else {
                "Before apply — "@ + summary
            }
        },
    }
}

pub open spec fn opv(p: Option<&PendingConfig>) -> Option<PendingView> {
    match p {
        Some(c) => Some(c@),
        None => None,
    }
}

pub fn default_label(trigger: SnapshotTrigger, pending: Option<&PendingConfig>, date: &str) -> (s: String)
    ensures
        s@ == spec_default_label(trigger, opv(pending), date@),
{
    match trigger {
        SnapshotTrigger::AppOpen => {
            let mut s = owned("Startup baseline — ");
            push_str(&mut s, date);
            s
        },
        SnapshotTrigger::Manual => {
            let mut s = owned("Manual snapshot — ");
            push_str(&mut s, date);
            s
        },
        SnapshotTrigger::PreApply => {
            let summary = match pending {
                Some(p) => pending_summary(p),
                None => String::new(),
            };
            let mut s = owned("Before apply — ");
            if chars_of(summary.as_str()).len() == 0 {
                push_str(&mut s, date);
            } else {
                push_str(&mut s, summary.as_str());
            }
            s
        },
    }
}

/// The label of the snapshot taken before applying `pending`.
pub fn label_from_pending(pending: &PendingConfig, date: &str) -> (s: String)
    ensures
        s@ == spec_default_label(SnapshotTrigger::PreApply, Some(pending@), date@),
{
    default_label(SnapshotTrigger::PreApply, Some(pending), date)
}

/// A sortable id from a time: seconds (at least 8 digits) then nanoseconds
/// (9 digits).
pub open spec fn spec_chrono_id(secs: u64, nanos: u32) -> Seq<char> {
    zero_pad(nat_str(secs as nat), 8) + zero_pad(nat_str(nanos as nat), 9)
}

pub fn chrono_like_id(secs: u64, nanos: u32) -> (s: String)
    ensures
        s@ == spec_chrono_id(secs, nanos),
{
    let mut s = String::new();
    push_nat_padded(&mut s, secs, 8);
    push_nat_padded(&mut s, nanos as u64, 9);
    assert(s@ =~= spec_chrono_id(secs, nanos));
    s
}

/// A snapshot id: the time id, a dash and a tag.
pub fn snapshot_id(secs: u64, nanos: u32, tag: &str) -> (s: String)
    ensures
        s@ == spec_chrono_id(secs, nanos) + "-"@ + tag@,
{
    let mut s = chrono_like_id(secs, nanos);
    push_str(&mut s, "-");
    push_str(&mut s, tag);
    s
}

// ---------------------------------------------------------------------------
// The captured state
// ---------------------------------------------------------------------------

/// The SHA-256 digest of `data`.
pub uninterp spec fn sha256(data: Seq<u8>) -> Seq<u8>;

/// `sha2::Sha256::digest`: the digest of `data`, 32 bytes long (the output
/// size of the type). Which bytes is named, not restated.
#[verifier::external_body]
fn sha256_digest(data: &[u8]) -> (r: Vec<u8>)
    ensures
        r@ == sha256(data@),
        r@.len() == 32,
{
    sha2::Sha256::digest(data).to_vec()
}

pub open spec fn ascii_bytes(s: Seq<char>) -> Seq<u8> {
    s.map_values(|c: char| (c as u32) as u8)
}

pub open spec fn opt_bytes(o: Option<Vec<u8>>) -> Option<Seq<u8>> {
    match o {
        Some(b) => Some(b@),
        None => None,
    }
}

/// What is hashed: for each managed file that exists, its snapshot name
/// then its bytes, in the fixed order of the managed files.
pub open spec fn hash_input(contents: Seq<Option<Seq<u8>>>, n: nat) -> Seq<u8>
    decreases n,
{
    if n == 0 {
        Seq::empty()
    } else {
        hash_input(contents, (n - 1) as nat) + match contents[n - 1] {
            Some(b) => ascii_bytes(managed_files()[n - 1].1) + b,
            None => Seq::empty(),
        }
    }
}

/// The state hash: lowercase hex of the SHA-256 of the hash input.
pub open spec fn state_hash_of(contents: Seq<Option<Seq<u8>>>) -> Seq<char> {
    hex_str(sha256(hash_input(contents, 4)))
}

pub struct CapturedState {
    pub state_hash: String,
    pub artifacts: SnapshotArtifacts,
    pub swapfiles: Vec<SnapshotSwapfile>,
    pub zram_devices: Vec<ZramDevice>,
}

fn push_bytes(v: &mut Vec<u8>, b: &[u8])
    ensures
        final(v)@ == old(v)@ + b@,
{
    let ghost v0 = v@;
    let mut i: usize = 0;
    while i < b.len()
        invariant
            i <= b.len(),
            v@ == v0 + b@.subrange(0, i as int),
        decreases b.len() - i,
    {
        v.push(b[i]);
        i = i + 1;
        assert(v@ =~= v0 + b@.subrange(0, i as int));
    }
    assert(b@.subrange(0, b.len() as int) =~= b@);
}

fn push_ascii(v: &mut Vec<u8>, s: &str)
    ensures
        final(v)@ == old(v)@ + ascii_bytes(s@),
{
    let c = chars_of(s);
    let ghost v0 = v@;
    let mut i: usize = 0;
    while i < c.len()
        invariant
            i <= c.len(),
            c@ == s@,
            v@ == v0 + ascii_bytes(c@.subrange(0, i as int)),
        decreases c.len() - i,
    {
        v.push((c[i] as u32) as u8);
        i = i + 1;
        assert(v@ =~= v0 + ascii_bytes(c@.subrange(0, i as int)));
    }
    assert(c@.subrange(0, c.len() as int) =~= c@);
}

fn artifact(present: bool, name: &str) -> (a: SnapshotArtifact)
    ensures
        a.present == present,
        sv(a.filename) == (if present { Some(name@) } else { None::<Seq<char>> }),
{
    SnapshotArtifact {
        present,
        filename: if present {
            Some(owned(name))
        } else {
            None
        },
    }
}

pub open spec fn artifact_ok(a: SnapshotArtifact, present: bool, name: Seq<char>) -> bool {
    a.present == present && sv(a.filename) == (if present { Some(name) } else { None::<Seq<char>> })
}

/// The state of the managed files, swapfiles and zram devices.
/// `contents[i]` holds the bytes of the `i`-th managed file, `None` when it
/// does not exist.
pub fn capture_system_state(
    contents: &Vec<Option<Vec<u8>>>,
    swapfiles: Vec<SnapshotSwapfile>,
    zram_devices: Vec<ZramDevice>,
) -> (c: CapturedState)
    requires
        contents.len() == 4,
    ensures
        c.state_hash@ == state_hash_of(contents@.map_values(|o: Option<Vec<u8>>| opt_bytes(o))),
        artifact_ok(c.artifacts.zram_generator_conf, contents@[0] is Some, managed_files()[0].1),
        artifact_ok(c.artifacts.fstab, contents@[1] is Some, managed_files()[1].1),
        artifact_ok(c.artifacts.sysctl, contents@[2] is Some, managed_files()[2].1),
        artifact_ok(c.artifacts.zramswap, contents@[3] is Some, managed_files()[3].1),
        c.swapfiles == swapfiles,
        c.zram_devices == zram_devices,
{
    let files = managed_etc_files();
    let ghost cs = contents@.map_values(|o: Option<Vec<u8>>| opt_bytes(o));
    let mut data: Vec<u8> = Vec::new();
    let mut i: usize = 0;
    while i < 4
        invariant
            i <= 4,
            contents.len() == 4,
            files@.len() == 4,
            forall|k: int| 0 <= k < 4 ==> (files@[k].0@, files@[k].1@) == #[trigger] managed_files()[k],
            cs == contents@.map_values(|o: Option<Vec<u8>>| opt_bytes(o)),
            data@ == hash_input(cs, i as nat),
        decreases 4 - i,
    {
        assert(cs[i as int] == opt_bytes(contents@[i as int]));
        assert((files@[i as int].0@, files@[i as int].1@) == managed_files()[i as int]);
        match &contents[i] {
            Some(b) => {
                push_ascii(&mut data, files[i].1);
                push_bytes(&mut data, b.as_slice());
            },
            None => {},
        }
        i = i + 1;
        assert(data@ =~= hash_input(cs, i as nat));
    }
    let digest = sha256_digest(data.as_slice());
    let mut state_hash = String::new();
    push_hex(&mut state_hash, digest.as_slice());
    assert(state_hash@ =~= state_hash_of(cs));
    proof {
        assert((files@[0].0@, files@[0].1@) == managed_files()[0]);
        assert((files@[1].0@, files@[1].1@) == managed_files()[1]);
        assert((files@[2].0@, files@[2].1@) == managed_files()[2]);
        assert((files@[3].0@, files@[3].1@) == managed_files()[3]);
    }
    let artifacts = SnapshotArtifacts {
        zram_generator_conf: artifact(contents[0].is_some(), files[0].1),
        fstab: artifact(contents[1].is_some(), files[1].1),
        sysctl: artifact(contents[2].is_some(), files[2].1),
        zramswap: artifact(contents[3].is_some(), files[3].1),
    };
    CapturedState { state_hash, artifacts, swapfiles, zram_devices }
}

/// An app-open snapshot is skipped when the newest snapshot has the same
/// state hash.
pub fn duplicate_app_open(trigger: SnapshotTrigger, latest: Option<&SnapshotMeta>, state_hash: &str) -> (r: bool)
    ensures
        r == (trigger == SnapshotTrigger::AppOpen && (latest matches Some(l) && l.state_hash@ == state_hash@)),
{
    if trigger != SnapshotTrigger::AppOpen {
        return false;
    }
    match latest {
        Some(l) => crate::text::chars_eq(&chars_of(l.state_hash.as_str()), &chars_of(state_hash)),
        None => false,
    }
}

/// The record of a new snapshot taken at `secs`/`nanos`: the id names the
/// time and trigger, the label is the given one or the default one, and the
/// pending changes are summarized.
pub fn build_snapshot_meta(
    trigger: SnapshotTrigger,
    label: Option<&str>,
    pending: Option<&PendingConfig>,
    captured: CapturedState,
    secs: u64,
    nanos: u32,
    version: &str,
) -> (m: SnapshotMeta)
    ensures
        m.id@ == spec_chrono_id(secs, nanos) + "-"@ + trigger_name(trigger),
        m.created_at@ == nat_str(secs as nat),
        m.label@ == (match label {
            Some(l) => l@,
            None => spec_default_label(trigger, opv(pending), spec_human_date(secs)),
        }),
        m.trigger == trigger,
        m.state_hash == captured.state_hash,
        m.xzram_version@ == version@,
        sv(m.pending_summary) == (match pending {
            Some(p) => Some(spec_pending_summary(p@)),
            None => None,
        }),
        m.artifacts == captured.artifacts,
        m.swapfiles == captured.swapfiles,
        m.zram_devices == captured.zram_devices,
{
    let id = snapshot_id(secs, nanos, trigger.as_str());
    let mut created_at = String::new();
    push_nat(&mut created_at, secs);
    assert(created_at@ =~= nat_str(secs as nat));
    let label = match label {
        Some(l) => owned(l),
        None => {
            let date = human_date(secs);
            default_label(trigger, pending, date.as_str())
        },
    };
    let pending_summary = match pending {
        Some(p) => Some(pending_summary(p)),
        None => None,
    };
    let CapturedState { state_hash, artifacts, swapfiles, zram_devices } = captured;
    SnapshotMeta {
        id,
        created_at,
        label,
        trigger,
        state_hash,
        xzram_version: owned(version),
        pending_summary,
        artifacts,
        swapfiles,
        zram_devices,
    }
}

/// A legacy backup directory is imported when it holds one of its files.
pub fn legacy_backup_importable(dir_exists: bool, fstab: bool, zram_conf: bool, sysctl: bool) -> (r: bool)
    ensures
        r == (dir_exists && (fstab || zram_conf || sysctl)),
{
    dir_exists && (fstab || zram_conf || sysctl)
}

/// The record of an imported legacy backup.
pub fn legacy_import_meta(captured: CapturedState, secs: u64, nanos: u32, version: &str) -> (m: SnapshotMeta)
    ensures
        m.id@ == spec_chrono_id(secs, nanos) + "-"@ + "legacy_import"@,
        m.created_at@ == nat_str(secs as nat),
        m.label@ == "Legacy backup (imported)"@,
        m.trigger == SnapshotTrigger::Manual,
        m.state_hash == captured.state_hash,
        m.xzram_version@ == version@,
        m.pending_summary is None,
        m.artifacts == captured.artifacts,
        m.swapfiles == captured.swapfiles,
        m.zram_devices == captured.zram_devices,
{
    let id = snapshot_id(secs, nanos, "legacy_import");
    let mut created_at = String::new();
    push_nat(&mut created_at, secs);
    assert(created_at@ =~= nat_str(secs as nat));
    let CapturedState { state_hash, artifacts, swapfiles, zram_devices } = captured;
    SnapshotMeta {
        id,
        created_at,
        label: owned("Legacy backup (imported)"),
        trigger: SnapshotTrigger::Manual,
        state_hash,
        xzram_version: owned(version),
        pending_summary: None,
        artifacts,
        swapfiles,
        zram_devices,
    }
}

} // verus!
