//! Informational items of the recommendation report.
use vstd::prelude::*;

use super::types::{items_view, ItemView, RecommendationItem, OVERFLOW_SWAPFILE_PATH};
use crate::apply::types::{sv, ZramConfig};
use crate::checks::{algorithm_mismatch, priority_inverted, spec_algorithm_mismatch, spec_priority_inverted, zram_zswap_conflict};
use crate::detect::DetectionReport;
use crate::status::{StatusReport, SwapEntry, ZramDevice};
use crate::text::{chars_of, eq_str, owned, push_str};

verus! {

pub open spec fn spec_note(summary: Seq<char>, detail: Seq<char>, reference: Option<Seq<char>>) -> ItemView {
    ItemView { category: "note"@, summary, detail, will_stage: false, reference }
}

pub open spec fn ostr(o: Option<&str>) -> Option<Seq<char>> {
    match o {
        Some(s) => Some(s@),
        None => None,
    }
}

/// An advisory item that stages nothing.
pub fn note_item(summary: &str, detail: String, reference: Option<&str>) -> (i: RecommendationItem)
    ensures
        i@ == spec_note(summary@, detail@, ostr(reference)),
{
    RecommendationItem {
        category: owned("note"),
        summary: owned(summary),
        detail,
        will_stage: false,
        reference: match reference {
            Some(r) => Some(owned(r)),
            None => None,
        },
    }
}

pub open spec fn zswap_detail(conflict: bool) -> Seq<char> {
    if conflict {
        "Advisory only — Apply defaults does not disable zswap. Both zram and zswap are active; disable zswap before using zram (see Doctor tab)."@
    } else {
        "Advisory only — Apply defaults does not disable zswap. Disable manually: echo 0 | sudo tee /sys/module/zswap/parameters/enabled, or add zswap.enabled=0 to the kernel cmdline."@
    }
}

pub open spec fn mismatch_detail(configured: Seq<char>, active: Seq<char>) -> Seq<char> {
    "Advisory only — generator config specifies '"@ + configured + "' but active device uses '"@
        + active
        + "'. Check the ZRAM tab or Doctor; Apply defaults may restage generator settings but cannot force a live algorithm change alone."@
}

pub open spec fn algorithm_item(current_algorithm: Option<Seq<char>>, zram_devices: Seq<ZramDevice>) -> Seq<ItemView> {
    match current_algorithm {
        Some(c) => if zram_devices.len() > 0 && spec_algorithm_mismatch(c, zram_devices[0].algorithm@) {
            seq![
                spec_note(
                    "ZRAM algorithm mismatch"@,
                    mismatch_detail(c, zram_devices[0].algorithm@),
                    Some("known-conflicts"@),
                ),
            ]
        } else {
            Seq::empty()
        },
        None => Seq::empty(),
    }
}

pub open spec fn note_if(c: bool, i: ItemView) -> Seq<ItemView> {
    if c {
        seq![i]
    } else {
        Seq::empty()
    }
}

/// The notes on zswap, the zswap alternative and the root filesystem.
pub open spec fn head_notes(
    root_fs: Option<Seq<char>>,
    zram_devices: Seq<ZramDevice>,
    staging_overflow: bool,
    zswap: Option<bool>,
) -> Seq<ItemView> {
    note_if(
        zswap == Some(true),
        spec_note(
            "Disable zswap when using zram"@,
            zswap_detail(zram_devices.len() > 0 && zswap == Some(true)),
            Some("known-conflicts"@),
        ),
    ) + seq![
        spec_note(
            "When zswap may fit better"@,
            "Advisory only — Apply defaults does not configure zswap. If sustained swap use exceeds ~30% of RAM or is unpredictable on fast NVMe, consider a zswap-based setup instead of zram-only tuning."@,
            Some("zswap-alternative"@),
        ),
    ] + note_if(
        root_fs == Some("zfs"@),
        spec_note(
            "ZFS root: swapfiles have special requirements"@,
            "Advisory only — prefer a dedicated swap partition or zvol on ZFS systems. Apply defaults will not create a ZFS-safe swap layout automatically."@,
            Some("doctor-mapping"@),
        ),
    ) + note_if(
        root_fs == Some("btrfs"@) && staging_overflow,
        spec_note(
            "Btrfs: nodatacow prepared on apply"@,
            "Apply runs 'xzram swapfile prepare' before creating "@ + OVERFLOW_SWAPFILE_PATH@ + "."@,
            Some("doctor-mapping"@),
        ),
    )
}

/// The notes on priority inversion, several zram devices and the unused
/// writeback device.
pub open spec fn tail_notes(zram_devices: Seq<ZramDevice>, swaps: Seq<SwapEntry>) -> Seq<ItemView> {
    note_if(
        spec_priority_inverted(swaps),
        spec_note(
            "Swap priority inversion detected"@,
            "Apply defaults stages zram priority 100 and disk swapfile priority 10 when those changes are in scope, to restore correct tiering."@,
            Some("priority-tiers"@),
        ),
    ) + note_if(
        zram_devices.len() > 1,
        spec_note(
            "Multiple zram devices detected"@,
            "Advisory only — XZram manages swap on zram0 only. Additional zram devices (e.g. /tmp ramdisk) are not changed."@,
            Some("multi-device"@),
        ),
    ) + seq![
        spec_note(
            "Writeback device not used"@,
            "Advisory only — Apply defaults does not configure writeback-device. XZram uses a low-priority overflow swapfile instead (requires no separate daemon). See docs/RECOMMENDATIONS.md#writeback-device."@,
            Some("writeback-device"@),
        ),
    ]
}

/// The advisory notes: zswap, the zswap alternative, ZFS and btrfs roots,
/// an algorithm mismatch with the live device, priority inversion, several
/// zram devices, and the unused writeback device, in that order.
pub open spec fn spec_advisory(
    root_fs: Option<Seq<char>>,
    zram_devices: Seq<ZramDevice>,
    swaps: Seq<SwapEntry>,
    current_algorithm: Option<Seq<char>>,
    staging_overflow: bool,
    zswap: Option<bool>,
) -> Seq<ItemView> {
    head_notes(root_fs, zram_devices, staging_overflow, zswap) + algorithm_item(current_algorithm, zram_devices)
        + tail_notes(zram_devices, swaps)
}

pub open spec fn current_algorithm(z: Option<&ZramConfig>) -> Option<Seq<char>> {
    match z {
        Some(c) => sv(c.compression_algorithm),
        None => None,
    }
}

fn push_item(items: &mut Vec<RecommendationItem>, i: RecommendationItem)
    ensures
        items_view(final(items)@) == items_view(old(items)@).push(i@),
{
    items.push(i);
    assert(items_view(items@) =~= items_view(old(items)@).push(i@));
}

fn opt_fs_is(fs: &Option<String>, name: &str) -> (r: bool)
    ensures
        r == (sv(*fs) == Some(name@)),
{
    match fs {
        Some(f) => {
            let c = chars_of(f.as_str());
            eq_str(&c, name)
        },
        None => false,
    }
}

fn append_head_notes(
    items: &mut Vec<RecommendationItem>,
    detection: &DetectionReport,
    status: &StatusReport,
    staging_overflow_swapfile: bool,
    zswap: Option<bool>,
)
    ensures
        items_view(final(items)@) == items_view(old(items)@) + head_notes(
            sv(detection.root_filesystem),
            status.zram_devices@,
            staging_overflow_swapfile,
            zswap,
        ),
{
    let ghost start = items_view(items@);
    let ghost devs = status.zram_devices@;
    if zswap == Some(true) {
        let conflict = zram_zswap_conflict(status.zram_devices.as_slice(), zswap);
        let detail = if conflict {
            "Advisory only — Apply defaults does not disable zswap. Both zram and zswap are active; disable zswap before using zram (see Doctor tab)."
        } else {
            "Advisory only — Apply defaults does not disable zswap. Disable manually: echo 0 | sudo tee /sys/module/zswap/parameters/enabled, or add zswap.enabled=0 to the kernel cmdline."
        };
        push_item(items, note_item("Disable zswap when using zram", owned(detail), Some("known-conflicts")));
    }
    let ghost s1 = items_view(items@);
    assert(s1 =~= start + note_if(
        zswap == Some(true),
        spec_note(
            "Disable zswap when using zram"@,
            zswap_detail(devs.len() > 0 && zswap == Some(true)),
            Some("known-conflicts"@),
        ),
    ));
    push_item(
        items,
        note_item(
            "When zswap may fit better",
            owned("Advisory only — Apply defaults does not configure zswap. If sustained swap use exceeds ~30% of RAM or is unpredictable on fast NVMe, consider a zswap-based setup instead of zram-only tuning."),
            Some("zswap-alternative"),
        ),
    );
    let ghost s2 = items_view(items@);
    if opt_fs_is(&detection.root_filesystem, "zfs") {
        push_item(
            items,
            note_item(
                "ZFS root: swapfiles have special requirements",
                owned("Advisory only — prefer a dedicated swap partition or zvol on ZFS systems. Apply defaults will not create a ZFS-safe swap layout automatically."),
                Some("doctor-mapping"),
            ),
        );
    }
    let ghost s3 = items_view(items@);
    if opt_fs_is(&detection.root_filesystem, "btrfs") && staging_overflow_swapfile {
        let mut d = owned("Apply runs 'xzram swapfile prepare' before creating ");
        push_str(&mut d, OVERFLOW_SWAPFILE_PATH);
        push_str(&mut d, ".");
        push_item(items, note_item("Btrfs: nodatacow prepared on apply", d, Some("doctor-mapping")));
    }
    assert(items_view(items@) =~= start + head_notes(
        sv(detection.root_filesystem),
        devs,
        staging_overflow_swapfile,
        zswap,
    ));
}

fn append_algorithm_note(
    items: &mut Vec<RecommendationItem>,
    status: &StatusReport,
    current_zram: Option<&ZramConfig>,
)
    ensures
        items_view(final(items)@) == items_view(old(items)@) + algorithm_item(
            current_algorithm(current_zram),
            status.zram_devices@,
        ),
{
    let ghost start = items_view(items@);
    if let Some(z) = current_zram {
        if let Some(configured) = &z.compression_algorithm {
            if status.zram_devices.len() > 0 {
                let active = &status.zram_devices[0];
                if algorithm_mismatch(configured.as_str(), active.algorithm.as_str()) {
                    let mut d = owned("Advisory only — generator config specifies '");
                    push_str(&mut d, configured.as_str());
                    push_str(&mut d, "' but active device uses '");
                    push_str(&mut d, active.algorithm.as_str());
                    push_str(
                        &mut d,
                        "'. Check the ZRAM tab or Doctor; Apply defaults may restage generator settings but cannot force a live algorithm change alone.",
                    );
                    push_item(items, note_item("ZRAM algorithm mismatch", d, Some("known-conflicts")));
                }
            }
        }
    }
    assert(items_view(items@) =~= start + algorithm_item(current_algorithm(current_zram), status.zram_devices@));
}

fn append_tail_notes(items: &mut Vec<RecommendationItem>, status: &StatusReport)
    ensures
        items_view(final(items)@) == items_view(old(items)@) + tail_notes(status.zram_devices@, status.swaps@),
{
    let ghost start = items_view(items@);
    if priority_inverted(status.swaps.as_slice()) {
        push_item(
            items,
            note_item(
                "Swap priority inversion detected",
                owned("Apply defaults stages zram priority 100 and disk swapfile priority 10 when those changes are in scope, to restore correct tiering."),
                Some("priority-tiers"),
            ),
        );
    }
    let ghost s1 = items_view(items@);
    if status.zram_devices.len() > 1 {
        push_item(
            items,
            note_item(
                "Multiple zram devices detected",
                owned("Advisory only — XZram manages swap on zram0 only. Additional zram devices (e.g. /tmp ramdisk) are not changed."),
                Some("multi-device"),
            ),
        );
    }
    let ghost s2 = items_view(items@);
    push_item(
        items,
        note_item(
            "Writeback device not used",
            owned("Advisory only — Apply defaults does not configure writeback-device. XZram uses a low-priority overflow swapfile instead (requires no separate daemon). See docs/RECOMMENDATIONS.md#writeback-device."),
            Some("writeback-device"),
        ),
    );
    assert(items_view(items@) =~= start + tail_notes(status.zram_devices@, status.swaps@));
}

/// The advisory notes of the report; `zswap` is whether zswap is enabled
/// (`None` when unknown).
pub fn advisory_items(
    detection: &DetectionReport,
    status: &StatusReport,
    current_zram: Option<&ZramConfig>,
    staging_overflow_swapfile: bool,
    zswap: Option<bool>,
) -> (items: Vec<RecommendationItem>)
    ensures
        items_view(items@) == spec_advisory(
            sv(detection.root_filesystem),
            status.zram_devices@,
            status.swaps@,
            current_algorithm(current_zram),
            staging_overflow_swapfile,
            zswap,
        ),
{
    let mut items: Vec<RecommendationItem> = Vec::new();
    assert(items_view(items@) =~= Seq::<ItemView>::empty());
    append_head_notes(&mut items, detection, status, staging_overflow_swapfile, zswap);
    append_algorithm_note(&mut items, status, current_zram);
    append_tail_notes(&mut items, status);
    items
}

// ---------------------------------------------------------------------------
// Laws of the advisory notes
// ---------------------------------------------------------------------------

/// No item carries the summary `summary`.
pub open spec fn lacks_summary(items: Seq<ItemView>, summary: Seq<char>) -> bool {
    forall|i: int| 0 <= i < items.len() ==> (#[trigger] items[i]).summary != summary
}

/// Every item is an informational note that stages nothing.
pub open spec fn all_notes(items: Seq<ItemView>) -> bool {
    forall|i: int| 0 <= i < items.len() ==> (#[trigger] items[i]).category == "note"@ && !items[i].will_stage
}

pub proof fn lemma_lacks_concat(a: Seq<ItemView>, b: Seq<ItemView>, s: Seq<char>)
    ensures
        lacks_summary(a + b, s) == (lacks_summary(a, s) && lacks_summary(b, s)),
{
    let c = a + b;
    if lacks_summary(c, s) {
        assert forall|i: int| 0 <= i < a.len() implies (#[trigger] a[i]).summary != s by {
            assert(c[i] == a[i]);
        }
        assert forall|i: int| 0 <= i < b.len() implies (#[trigger] b[i]).summary != s by {
            assert(c[a.len() + i] == b[i]);
        }
    }
    if lacks_summary(a, s) && lacks_summary(b, s) {
        assert forall|i: int| 0 <= i < c.len() implies (#[trigger] c[i]).summary != s by {
            if i < a.len() {
                assert(c[i] == a[i]);
            } else {
                assert(c[i] == b[i - a.len()]);
            }
        }
    }
}

proof fn lemma_all_notes_concat(a: Seq<ItemView>, b: Seq<ItemView>)
    requires
        all_notes(a),
        all_notes(b),
    ensures
        all_notes(a + b),
{
    let c = a + b;
    assert forall|i: int| 0 <= i < c.len() implies (#[trigger] c[i]).category == "note"@ && !c[i].will_stage by {
        if i < a.len() {
            assert(c[i] == a[i]);
        } else {
            assert(c[i] == b[i - a.len()]);
        }
    }
}

/// Two texts whose characters differ at `i` differ.
pub proof fn lemma_differ_at(a: Seq<char>, b: Seq<char>, i: int)
    requires
        0 <= i < a.len(),
        0 <= i < b.len(),
        a[i] != b[i],
    ensures
        a != b,
{
}

/// The advisory notes are informational only. They always include the note
/// on when zswap may fit better and end with the note on the writeback
/// device; the note on several zram devices appears exactly when there is
/// more than one zram device, and the btrfs nodatacow note exactly when the
/// root is btrfs and an overflow swapfile is staged.
pub proof fn lemma_advisory_shape(
    root_fs: Option<Seq<char>>,
    zram_devices: Seq<ZramDevice>,
    swaps: Seq<SwapEntry>,
    current_algorithm: Option<Seq<char>>,
    staging_overflow: bool,
    zswap: Option<bool>,
)
    ensures
        ({
            let items = spec_advisory(root_fs, zram_devices, swaps, current_algorithm, staging_overflow, zswap);
            &&& all_notes(items)
            &&& !lacks_summary(items, "When zswap may fit better"@)
            &&& items.len() > 0 && items.last().summary == "Writeback device not used"@
            &&& !lacks_summary(items, "Multiple zram devices detected"@) == (zram_devices.len() > 1)
            &&& !lacks_summary(items, "Btrfs: nodatacow prepared on apply"@) == (root_fs == Some("btrfs"@)
                && staging_overflow)
        }),
{
    let h = head_notes(root_fs, zram_devices, staging_overflow, zswap);
    let a = algorithm_item(current_algorithm, zram_devices);
    let t = tail_notes(zram_devices, swaps);
    let items = h + a + t;
    reveal_strlit("Disable zswap when using zram");
    reveal_strlit("When zswap may fit better");
    reveal_strlit("ZFS root: swapfiles have special requirements");
    reveal_strlit("Btrfs: nodatacow prepared on apply");
    reveal_strlit("ZRAM algorithm mismatch");
    reveal_strlit("Swap priority inversion detected");
    reveal_strlit("Multiple zram devices detected");
    reveal_strlit("Writeback device not used");
    reveal_strlit("note");
    assert(all_notes(h));
    assert(all_notes(a));
    assert(all_notes(t));
    lemma_all_notes_concat(h, a);
    lemma_all_notes_concat(h + a, t);
    // the zswap note
    let w = "When zswap may fit better"@;
    let h1 = note_if(
        zswap == Some(true),
        spec_note(
            "Disable zswap when using zram"@,
            zswap_detail(zram_devices.len() > 0 && zswap == Some(true)),
            Some("known-conflicts"@),
        ),
    );
    assert(items[h1.len() as int].summary == w);
    // the last note
    assert(items.last() == t.last());
    // the note on several devices, and the btrfs note
    let m = "Multiple zram devices detected"@;
    let b = "Btrfs: nodatacow prepared on apply"@;
    lemma_differ_at("Disable zswap when using zram"@, m, 0);
    lemma_differ_at(w, m, 0);
    lemma_differ_at("ZFS root: swapfiles have special requirements"@, m, 0);
    lemma_differ_at(b, m, 0);
    lemma_differ_at("ZRAM algorithm mismatch"@, m, 0);
    lemma_differ_at("Swap priority inversion detected"@, m, 0);
    lemma_differ_at("Writeback device not used"@, m, 0);
    lemma_differ_at("Disable zswap when using zram"@, b, 0);
    lemma_differ_at(w, b, 0);
    lemma_differ_at("ZFS root: swapfiles have special requirements"@, b, 0);
    lemma_differ_at("ZRAM algorithm mismatch"@, b, 0);
    lemma_differ_at("Swap priority inversion detected"@, b, 0);
    lemma_differ_at("Writeback device not used"@, b, 0);
    lemma_differ_at(m, b, 0);
    assert(lacks_summary(a, m));
    assert(lacks_summary(a, b));
    lemma_lacks_concat(h, a, m);
    lemma_lacks_concat(h + a, t, m);
    lemma_lacks_concat(h, a, b);
    lemma_lacks_concat(h + a, t, b);
    assert(lacks_summary(h, m));
    assert(lacks_summary(t, b));
    if zram_devices.len() > 1 {
        let t1 = note_if(
            spec_priority_inverted(swaps),
            spec_note(
                "Swap priority inversion detected"@,
                "Apply defaults stages zram priority 100 and disk swapfile priority 10 when those changes are in scope, to restore correct tiering."@,
                Some("priority-tiers"@),
            ),
        );
        assert(t[t1.len() as int].summary == m);
    } else {
        assert(lacks_summary(t, m));
    }
    if root_fs == Some("btrfs"@) && staging_overflow {
        assert(h[h.len() - 1].summary == b);
    } else {
        assert(lacks_summary(h, b));
    }
}

/// No advisory note carries the summary of the note that opens a report
/// which stages nothing.
pub proof fn lemma_advisory_lacks_match(
    root_fs: Option<Seq<char>>,
    zram_devices: Seq<ZramDevice>,
    swaps: Seq<SwapEntry>,
    current_algorithm: Option<Seq<char>>,
    staging_overflow: bool,
    zswap: Option<bool>,
)
    ensures
        lacks_summary(
            spec_advisory(root_fs, zram_devices, swaps, current_algorithm, staging_overflow, zswap),
            "System already matches recommended defaults"@,
        ),
{
    let m = "System already matches recommended defaults"@;
    reveal_strlit("System already matches recommended defaults");
    reveal_strlit("Disable zswap when using zram");
    reveal_strlit("When zswap may fit better");
    reveal_strlit("ZFS root: swapfiles have special requirements");
    reveal_strlit("Btrfs: nodatacow prepared on apply");
    reveal_strlit("ZRAM algorithm mismatch");
    reveal_strlit("Swap priority inversion detected");
    reveal_strlit("Multiple zram devices detected");
    reveal_strlit("Writeback device not used");
    lemma_differ_at("Disable zswap when using zram"@, m, 0);
    lemma_differ_at("When zswap may fit better"@, m, 0);
    lemma_differ_at("ZFS root: swapfiles have special requirements"@, m, 0);
    lemma_differ_at("Btrfs: nodatacow prepared on apply"@, m, 0);
    lemma_differ_at("ZRAM algorithm mismatch"@, m, 0);
    lemma_differ_at("Swap priority inversion detected"@, m, 1);
    lemma_differ_at("Multiple zram devices detected"@, m, 0);
    lemma_differ_at("Writeback device not used"@, m, 0);
    let h = head_notes(root_fs, zram_devices, staging_overflow, zswap);
    let a = algorithm_item(current_algorithm, zram_devices);
    let t = tail_notes(zram_devices, swaps);
    assert(lacks_summary(h, m));
    assert(lacks_summary(a, m));
    assert(lacks_summary(t, m));
    lemma_lacks_concat(h, a, m);
    lemma_lacks_concat(h + a, t, m);
}

} // verus!
