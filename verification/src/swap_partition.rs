//! Swap partitions declared in fstab, merged with the active swaps.
use vstd::prelude::*;

use crate::backend::swapfile::{options_field, options_of, spec_fstab_priority, swap_fields, swap_fields_of, parse_fstab_priority};
use crate::doctor::{issue, issues_view, DoctorIssue, IssueSeverity, IssueView};
use crate::status::SwapEntry;
use crate::text::{
    chars_eq, chars_of, ends_with, ends_with_of, lines, lines_of, owned, push_chars, push_str, slice_of, starts_with,
    starts_with_str, string_of, views,
};

verus! {

#[derive(Debug, Clone)]
pub struct SwapPartition {
    pub device: String,
    pub uuid: Option<String>,
    pub fstab_options: String,
    pub priority: i32,
    pub active: bool,
    pub source: SwapSource,
}

#[derive(Debug, Clone, Copy, PartialEq, Eq, Structural)]
pub enum SwapSource {
    Active,
    Fstab,
}

#[derive(Debug, Clone)]
pub struct SwapListEntry {
    pub name: String,
    pub swap_type: String,
    pub size_bytes: u64,
    pub used_bytes: u64,
    pub priority: i32,
    pub source: SwapSource,
    pub active: bool,
}

/// The UUID of a `UUID=` device spec.
pub open spec fn spec_extract_uuid(spec: Seq<char>) -> Option<Seq<char>> {
    if starts_with(spec, "UUID="@) {
        Some(spec.subrange(5, spec.len() as int))
    } else {
        None
    }
}

pub fn extract_uuid(spec: &str) -> (r: Option<String>)
    ensures
        crate::apply::types::sv(r) == spec_extract_uuid(spec@),
{
    proof {
        reveal_strlit("UUID=");
    }
    let c = chars_of(spec);
    if starts_with_str(&c, "UUID=") {
        Some(string_of(&slice_of(&c, 5, c.len())))
    } else {
        None
    }
}

/// A swap partition line of fstab: its device spec and mount options.
pub struct PartitionLine {
    pub spec: Seq<char>,
    pub options: Seq<char>,
}

/// The swap lines of fstab whose device is `/dev/...` or `UUID=...`.
pub open spec fn partition_lines_of(ls: Seq<Seq<char>>) -> Seq<PartitionLine>
    decreases ls.len(),
{
    if ls.len() == 0 {
        Seq::empty()
    } else {
        let rest = partition_lines_of(ls.drop_last());
        match swap_fields(ls.last()) {
            Some(f) => if starts_with(f[0], "/dev/"@) || starts_with(f[0], "UUID="@) {
                rest.push(PartitionLine { spec: f[0], options: options_of(f) })
            } else {
                rest
            },
            None => rest,
        }
    }
}

pub open spec fn pairs_view(v: Seq<(String, String)>) -> Seq<PartitionLine> {
    v.map_values(|p: (String, String)| PartitionLine { spec: p.0@, options: p.1@ })
}

/// The device spec and mount options of each swap partition in the fstab
/// text, in file order.
pub fn fstab_swap_partitions(fstab: &str) -> (r: Vec<(String, String)>)
    ensures
        pairs_view(r@) == partition_lines_of(lines(fstab@)),
{
    let c = chars_of(fstab);
    let ls = lines_of(&c);
    let mut r: Vec<(String, String)> = Vec::new();
    let mut i: usize = 0;
    while i < ls.len()
        invariant
            i <= ls.len(),
            views(ls@) == lines(fstab@),
            pairs_view(r@) == partition_lines_of(views(ls@).subrange(0, i as int)),
        decreases ls.len() - i,
    {
        let ghost pre = views(ls@).subrange(0, (i + 1) as int);
        assert(pre.drop_last() == views(ls@).subrange(0, i as int));
        assert(pre.last() == ls@[i as int]@);
        let ghost r0 = r@;
        if let Some(f) = swap_fields_of(&ls[i]) {
            assert(views(f@)[0] == f@[0]@);
            if starts_with_str(&f[0], "/dev/") || starts_with_str(&f[0], "UUID=") {
                let spec = string_of(&f[0]);
                let options = string_of(&options_field(&f));
                r.push((spec, options));
                assert(pairs_view(r@) =~= pairs_view(r0).push(
                    PartitionLine { spec: f@[0]@, options: options_of(views(f@)) },
                ));
            }
        }
        i = i + 1;
    }
    assert(views(ls@).subrange(0, ls.len() as int) == views(ls@));
    r
}

/// `s` without every leading copy of `p` (`trim_start_matches`).
pub open spec fn trim_prefix_all(s: Seq<char>, p: Seq<char>) -> Seq<char>
    decreases s.len(),
{
    if p.len() > 0 && starts_with(s, p) {
        trim_prefix_all(s.subrange(p.len() as int, s.len() as int), p)
    } else {
        s
    }
}

pub fn trim_dev_prefix(s: &[char]) -> (r: Vec<char>)
    ensures
        r@ == trim_prefix_all(s@, "/dev/"@),
    decreases s.len(),
{
    proof {
        reveal_strlit("/dev/");
    }
    if starts_with_str(s, "/dev/") {
        let t = slice_of(s, 5, s.len());
        trim_dev_prefix(&t)
    } else {
        slice_of(s, 0, s.len())
    }
}

/// Trimming leaves no leading copy of the prefix behind.
pub proof fn lemma_trim_prefix_idempotent(s: Seq<char>, p: Seq<char>)
    ensures
        trim_prefix_all(trim_prefix_all(s, p), p) == trim_prefix_all(s, p),
    decreases s.len(),
{
    if p.len() > 0 && starts_with(s, p) {
        lemma_trim_prefix_idempotent(s.subrange(p.len() as int, s.len() as int), p);
    }
}

/// An active swap stands for the partition when its name is the resolved
/// device or ends with the spec without its `/dev/` prefixes.
pub open spec fn spec_is_active(active: Seq<Seq<char>>, device: Seq<char>, spec: Seq<char>) -> bool {
    exists|i: int|
        0 <= i < active.len() && (#[trigger] active[i] == device || crate::text::ends_with(
            active[i],
            trim_prefix_all(spec, "/dev/"@),
        ))
}

pub open spec fn names_view(v: Seq<String>) -> Seq<Seq<char>> {
    v.map_values(|s: String| s@)
}

fn is_active(active: &[String], device: &[char], tail: &[char]) -> (r: bool)
    ensures
        r == exists|i: int|
            0 <= i < active.len() && (#[trigger] names_view(active@)[i] == device@ || crate::text::ends_with(
                names_view(active@)[i],
                tail@,
            )),
{
    let ghost names = names_view(active@);
    let mut i: usize = 0;
    while i < active.len()
        invariant
            i <= active.len(),
            names == names_view(active@),
            forall|j: int| 0 <= j < i ==> !(#[trigger] names[j] == device@ || crate::text::ends_with(names[j], tail@)),
        decreases active.len() - i,
    {
        let a = chars_of(active[i].as_str());
        assert(names[i as int] == a@);
        if chars_eq(&a, device) || ends_with_of(&a, tail) {
            return true;
        }
        i = i + 1;
    }
    false
}

/// The partition for an fstab swap line whose spec resolved to `device`,
/// given the names of the active swaps.
pub fn swap_partition(spec: &str, options: &str, device: &str, active: &[String]) -> (p: SwapPartition)
    ensures
        p.device@ == device@,
        crate::apply::types::sv(p.uuid) == spec_extract_uuid(spec@),
        p.fstab_options@ == options@,
        p.priority == spec_fstab_priority(options@),
        p.active == spec_is_active(names_view(active@), device@, spec@),
        p.source == (if p.active { SwapSource::Active } else { SwapSource::Fstab }),
{
    let sc = chars_of(spec);
    let dc = chars_of(device);
    let tail = trim_dev_prefix(&sc);
    let found = is_active(active, &dc, &tail);
    SwapPartition {
        device: owned(device),
        uuid: extract_uuid(spec),
        fstab_options: owned(options),
        priority: parse_fstab_priority(options),
        active: found,
        source: if found {
            SwapSource::Active
        } else {
            SwapSource::Fstab
        },
    }
}

/// A merged list entry as plain values.
pub struct ListView {
    pub name: Seq<char>,
    pub swap_type: Seq<char>,
    pub size_bytes: u64,
    pub used_bytes: u64,
    pub priority: i32,
    pub source: SwapSource,
    pub active: bool,
}

pub open spec fn list_view(v: Seq<SwapListEntry>) -> Seq<ListView> {
    v.map_values(
        |e: SwapListEntry|
            ListView {
                name: e.name@,
                swap_type: e.swap_type@,
                size_bytes: e.size_bytes,
                used_bytes: e.used_bytes,
                priority: e.priority,
                source: e.source,
                active: e.active,
            },
    )
}

pub open spec fn active_entry(s: SwapEntry) -> ListView {
    ListView {
        name: s.name@,
        swap_type: s.swap_type@,
        size_bytes: s.size_bytes,
        used_bytes: s.used_bytes,
        priority: s.priority,
        source: SwapSource::Active,
        active: true,
    }
}

pub open spec fn fstab_entry(p: SwapPartition) -> ListView {
    ListView {
        name: p.device@,
        swap_type: "partition"@,
        size_bytes: 0,
        used_bytes: 0,
        priority: p.priority,
        source: SwapSource::Fstab,
        active: false,
    }
}

pub open spec fn has_name(v: Seq<ListView>, name: Seq<char>) -> bool {
    exists|i: int| 0 <= i < v.len() && (#[trigger] v[i]).name == name
}

/// The fstab partitions not already listed, appended in order.
pub open spec fn merge_partitions(entries: Seq<ListView>, parts: Seq<SwapPartition>) -> Seq<ListView>
    decreases parts.len(),
{
    if parts.len() == 0 {
        entries
    } else {
        let prev = merge_partitions(entries, parts.drop_last());
        if has_name(prev, parts.last().device@) {
            prev
        } else {
            prev.push(fstab_entry(parts.last()))
        }
    }
}

/// The active swaps, then every fstab partition whose device is not listed
/// yet, as inactive entries.
pub open spec fn spec_merged(swaps: Seq<SwapEntry>, parts: Seq<SwapPartition>) -> Seq<ListView> {
    merge_partitions(swaps.map_values(|s: SwapEntry| active_entry(s)), parts)
}

fn listed(entries: &Vec<SwapListEntry>, name: &str) -> (r: bool)
    ensures
        r == has_name(list_view(entries@), name@),
{
    let ghost v = list_view(entries@);
    let n = chars_of(name);
    let mut i: usize = 0;
    while i < entries.len()
        invariant
            i <= entries.len(),
            v == list_view(entries@),
            n@ == name@,
            forall|j: int| 0 <= j < i ==> (#[trigger] v[j]).name != name@,
        decreases entries.len() - i,
    {
        if chars_eq(&chars_of(entries[i].name.as_str()), &n) {
            assert(v[i as int].name == name@);
            return true;
        }
        i = i + 1;
    }
    false
}

pub fn list_swaps_merged(swaps: &[SwapEntry], partitions: &[SwapPartition]) -> (r: Vec<SwapListEntry>)
    ensures
        list_view(r@) == spec_merged(swaps@, partitions@),
{
    let mut entries: Vec<SwapListEntry> = Vec::new();
    let ghost act = swaps@.map_values(|s: SwapEntry| active_entry(s));
    let mut i: usize = 0;
    while i < swaps.len()
        invariant
            i <= swaps.len(),
            act == swaps@.map_values(|s: SwapEntry| active_entry(s)),
            list_view(entries@) == act.subrange(0, i as int),
        decreases swaps.len() - i,
    {
        let s = &swaps[i];
        let ghost e0 = entries@;
        entries.push(
            SwapListEntry {
                name: owned(s.name.as_str()),
                swap_type: owned(s.swap_type.as_str()),
                size_bytes: s.size_bytes,
                used_bytes: s.used_bytes,
                priority: s.priority,
                source: SwapSource::Active,
                active: true,
            },
        );
        assert(act[i as int] == active_entry(swaps@[i as int]));
        assert(list_view(entries@) =~= list_view(e0).push(act[i as int]));
        i = i + 1;
        assert(list_view(entries@) =~= act.subrange(0, i as int));
    }
    assert(act.subrange(0, swaps.len() as int) =~= act);
    let mut k: usize = 0;
    assert(partitions@.subrange(0, 0) =~= Seq::<SwapPartition>::empty());
    while k < partitions.len()
        invariant
            k <= partitions.len(),
            act == swaps@.map_values(|s: SwapEntry| active_entry(s)),
            list_view(entries@) == merge_partitions(act, partitions@.subrange(0, k as int)),
        decreases partitions.len() - k,
    {
        let ghost pre = partitions@.subrange(0, (k + 1) as int);
        assert(pre.drop_last() =~= partitions@.subrange(0, k as int));
        assert(pre.last() == partitions@[k as int]);
        let p = &partitions[k];
        if !listed(&entries, p.device.as_str()) {
            let ghost e0 = entries@;
            entries.push(
                SwapListEntry {
                    name: owned(p.device.as_str()),
                    swap_type: owned("partition"),
                    size_bytes: 0,
                    used_bytes: 0,
                    priority: p.priority,
                    source: SwapSource::Fstab,
                    active: false,
                },
            );
            assert(list_view(entries@) =~= list_view(e0).push(fstab_entry(*p)));
        }
        k = k + 1;
    }
    assert(partitions@.subrange(0, partitions.len() as int) =~= partitions@);
    entries
}

/// A warning for each inactive partition whose device does not exist.
pub open spec fn missing_issues(parts: Seq<SwapPartition>, exists: Seq<bool>) -> Seq<IssueView>
    decreases parts.len(),
{
    if parts.len() == 0 {
        Seq::empty()
    } else {
        let n = parts.len() - 1;
        let p = parts[n];
        let prev = missing_issues(parts.drop_last(), exists);
        if !p.active && !exists[n] {
            prev.push(
                issue(
                    IssueSeverity::Warning,
                    "swap_partition_missing"@,
                    "fstab swap entry '"@ + p.device@ + "' points to a missing device"@,
                    "Remove stale fstab entry or attach the swap partition"@,
                ),
            )
        } else {
            prev
        }
    }
}

/// The issues for fstab swap partitions that are not active and whose
/// device is missing; `device_exists[i]` tells whether the device of
/// partition `i` exists.
pub fn check_missing_swap_partitions(partitions: &[SwapPartition], device_exists: &[bool]) -> (r: Vec<DoctorIssue>)
    requires
        device_exists.len() == partitions.len(),
    ensures
        issues_view(r@) == missing_issues(partitions@, device_exists@),
{
    let mut issues: Vec<DoctorIssue> = Vec::new();
    let mut i: usize = 0;
    assert(issues_view(issues@) =~= missing_issues(partitions@.subrange(0, 0), device_exists@));
    while i < partitions.len()
        invariant
            i <= partitions.len(),
            device_exists.len() == partitions.len(),
            issues_view(issues@) == missing_issues(partitions@.subrange(0, i as int), device_exists@),
        decreases partitions.len() - i,
    {
        let ghost pre = partitions@.subrange(0, (i + 1) as int);
        assert(pre.drop_last() =~= partitions@.subrange(0, i as int));
        assert(pre[i as int] == partitions@[i as int]);
        let p = &partitions[i];
        if !p.active && !device_exists[i] {
            let mut m = owned("fstab swap entry '");
            push_str(&mut m, p.device.as_str());
            push_str(&mut m, "' points to a missing device");
            let ghost i0 = issues@;
            issues.push(
                DoctorIssue {
                    severity: IssueSeverity::Warning,
                    code: owned("swap_partition_missing"),
                    message: m,
                    suggestion: Some(owned("Remove stale fstab entry or attach the swap partition")),
                    action: None,
                },
            );
            assert(issues_view(issues@) =~= issues_view(i0).push(issues@.last()@));
        }
        i = i + 1;
    }
    assert(partitions@.subrange(0, partitions.len() as int) =~= partitions@);
    issues
}

} // verus!
