//! The snapshot index, newest first: lookup, deletion and pruning.
use vstd::prelude::*;

use super::types::{SnapshotMeta, SnapshotTrigger};
use crate::error::XzramError;
use crate::text::{chars_eq, chars_of, owned, push_str};

verus! {

pub open spec fn ids(index: Seq<SnapshotMeta>) -> Seq<Seq<char>> {
    index.map_values(|m: SnapshotMeta| m.id@)
}

/// The position of the first snapshot with id `id`.
pub open spec fn first_with_id(index: Seq<SnapshotMeta>, id: Seq<char>) -> Option<int>
    decreases index.len(),
{
    if index.len() == 0 {
        None
    } else if index[0].id@ == id {
        Some(0)
    } else {
        match first_with_id(index.drop_first(), id) {
            Some(i) => Some(i + 1),
            None => None,
        }
    }
}

proof fn lemma_first_with_id_bounds(index: Seq<SnapshotMeta>, id: Seq<char>)
    ensures
        first_with_id(index, id) matches Some(i) ==> 0 <= i < index.len() && index[i].id@ == id && forall|j: int|
            0 <= j < i ==> (#[trigger] index[j]).id@ != id,
        first_with_id(index, id) is None ==> forall|j: int| 0 <= j < index.len() ==> (#[trigger] index[j]).id@ != id,
    decreases index.len(),
{
    if index.len() > 0 {
        lemma_first_with_id_bounds(index.drop_first(), id);
        assert forall|j: int| 1 <= j < index.len() implies index[j] == index.drop_first()[j - 1] by {}
    }
}

fn position(index: &Vec<SnapshotMeta>, id: &str) -> (r: Option<usize>)
    ensures
        match first_with_id(index@, id@) {
            Some(i) => r == Some(i as usize),
            None => r is None,
        },
        r matches Some(i) ==> i < index@.len() && index@[i as int].id@ == id@,
{
    proof {
        lemma_first_with_id_bounds(index@, id@);
    }
    let want = chars_of(id);
    let mut i: usize = 0;
    while i < index.len()
        invariant
            i <= index.len(),
            want@ == id@,
            forall|j: int| 0 <= j < i ==> (#[trigger] index@[j]).id@ != id@,
        decreases index.len() - i,
    {
        if chars_eq(&chars_of(index[i].id.as_str()), &want) {
            proof {
                lemma_first_with_id_bounds(index@, id@);
                if let Some(k) = first_with_id(index@, id@) {
                    if k < i {
                        assert(index@[k].id@ != id@);
                    }
                    if k > i {
                        assert(index@[i as int].id@ != id@);
                    }
                }
            }
            return Some(i);
        }
        i = i + 1;
    }
    proof {
        lemma_first_with_id_bounds(index@, id@);
        if let Some(k) = first_with_id(index@, id@) {
            assert(index@[k].id@ != id@);
        }
    }
    None
}

pub open spec fn not_found(id: Seq<char>) -> Seq<char> {
    "snapshot not found: "@ + id
}

fn not_found_error(id: &str) -> (e: XzramError)
    ensures
        e is NotFound && e->NotFound_0@ == not_found(id@),
{
    let mut m = owned("snapshot not found: ");
    push_str(&mut m, id);
    XzramError::NotFound(m)
}

/// The first snapshot of the index with id `id`, or not found.
pub fn get_snapshot(index: Vec<SnapshotMeta>, id: &str) -> (r: Result<SnapshotMeta, XzramError>)
    ensures
        match first_with_id(index@, id@) {
            Some(i) => r == Ok::<SnapshotMeta, XzramError>(index@[i]),
            None => r is Err && r->Err_0 is NotFound && r->Err_0->NotFound_0@ == not_found(id@),
        },
{
    proof {
        lemma_first_with_id_bounds(index@, id@);
    }
    let mut index = index;
    match position(&index, id) {
        Some(i) => Ok(index.remove(i)),
        None => Err(not_found_error(id)),
    }
}

/// The position of the newest pre-apply snapshot.
pub open spec fn first_pre_apply(index: Seq<SnapshotMeta>) -> Option<int>
    decreases index.len(),
{
    if index.len() == 0 {
        None
    } else if index[0].trigger == SnapshotTrigger::PreApply {
        Some(0)
    } else {
        match first_pre_apply(index.drop_first()) {
            Some(i) => Some(i + 1),
            None => None,
        }
    }
}

/// The id of the newest pre-apply snapshot, or not found.
pub fn latest_pre_apply_id(index: &Vec<SnapshotMeta>) -> (r: Result<String, XzramError>)
    ensures
        match first_pre_apply(index@) {
            Some(i) => r is Ok && r->Ok_0@ == index@[i].id@,
            None => r is Err && r->Err_0 is NotFound && r->Err_0->NotFound_0@ == "no pre_apply snapshot found"@,
        },
{
    let mut i: usize = 0;
    assert(index@.subrange(0, index@.len() as int) =~= index@);
    while i < index.len()
        invariant
            i <= index.len(),
            first_pre_apply(index@) == (match first_pre_apply(index@.subrange(i as int, index@.len() as int)) {
                Some(k) => Some(k + i),
                None => None::<int>,
            }),
        decreases index.len() - i,
    {
        let ghost rest = index@.subrange(i as int, index@.len() as int);
        assert(rest[0] == index@[i as int]);
        assert(rest.drop_first() =~= index@.subrange(i + 1, index@.len() as int));
        if index[i].trigger == SnapshotTrigger::PreApply {
            return Ok(owned(index[i].id.as_str()));
        }
        i = i + 1;
    }
    Err(XzramError::NotFound(owned("no pre_apply snapshot found")))
}

/// The index without its first snapshot with id `id`; `None` when there is
/// no such snapshot.
pub open spec fn spec_delete(index: Seq<SnapshotMeta>, id: Seq<char>) -> Option<Seq<SnapshotMeta>> {
    match first_with_id(index, id) {
        Some(i) => Some(index.remove(i)),
        None => None,
    }
}

/// Removes the first snapshot with id `id` from the index, or fails with not
/// found and leaves the index as it was.
pub fn delete_snapshot(index: &mut Vec<SnapshotMeta>, id: &str) -> (r: Result<(), XzramError>)
    ensures
        match spec_delete(old(index)@, id@) {
            Some(v) => r is Ok && final(index)@ == v,
            None => r is Err && r->Err_0 is NotFound && r->Err_0->NotFound_0@ == not_found(id@) && final(index)@
                == old(index)@,
        },
{
    proof {
        lemma_first_with_id_bounds(old(index)@, id@);
    }
    match position(index, id) {
        Some(i) => {
            index.remove(i);
            Ok(())
        },
        None => Err(not_found_error(id)),
    }
}

/// Deleting the ids in order, each at its first occurrence.
pub open spec fn delete_all(index: Seq<SnapshotMeta>, ids: Seq<Seq<char>>) -> Seq<SnapshotMeta>
    decreases ids.len(),
{
    if ids.len() == 0 {
        index
    } else {
        let prev = delete_all(index, ids.drop_last());
        match spec_delete(prev, ids.last()) {
            Some(v) => v,
            None => prev,
        }
    }
}

/// The ids that pruning to `keep` snapshots removes: those after the first
/// `keep`.
pub open spec fn pruned_ids(index: Seq<SnapshotMeta>, keep: nat) -> Seq<Seq<char>> {
    if index.len() <= keep {
        Seq::empty()
    } else {
        ids(index.subrange(keep as int, index.len() as int))
    }
}

pub open spec fn distinct_ids(index: Seq<SnapshotMeta>) -> bool {
    forall|i: int, j: int| 0 <= i < j < index.len() ==> (#[trigger] index[i]).id@ != (#[trigger] index[j]).id@
}

/// Keeps the newest `keep` snapshots: deletes, in order, the ids of those
/// after them and returns those ids. `keep` 0 is refused.
pub fn prune_snapshots(index: &mut Vec<SnapshotMeta>, keep: usize) -> (r: Result<Vec<String>, XzramError>)
    ensures
        keep == 0 <==> r is Err,
        r matches Err(e) ==> e is Validation && e->Validation_0@
            == "prune keep must be at least 1 (refusing to delete all snapshots)"@ && final(index)@ == old(index)@,
        r matches Ok(removed) ==> removed@.map_values(|s: String| s@) == pruned_ids(old(index)@, keep as nat)
            && final(index)@ == delete_all(old(index)@, pruned_ids(old(index)@, keep as nat)),
        r is Ok && distinct_ids(old(index)@) ==> final(index)@ == old(index)@.subrange(
            0,
            if old(index)@.len() <= keep { old(index)@.len() as int } else { keep as int },
        ),
{
    if keep == 0 {
        return Err(XzramError::Validation(owned("prune keep must be at least 1 (refusing to delete all snapshots)")));
    }
    let ghost orig = index@;
    if index.len() <= keep {
        assert(orig.subrange(0, orig.len() as int) =~= orig);
        let r: Vec<String> = Vec::new();
        assert(r@.map_values(|s: String| s@) =~= pruned_ids(orig, keep as nat));
        return Ok(r);
    }
    let mut to_remove: Vec<String> = Vec::new();
    let mut k: usize = keep;
    while k < index.len()
        invariant
            keep <= k <= index.len(),
            index@ == orig,
            to_remove@.map_values(|s: String| s@) == ids(orig.subrange(keep as int, k as int)),
        decreases index.len() - k,
    {
        let ghost t0 = to_remove@;
        to_remove.push(owned(index[k].id.as_str()));
        assert(orig.subrange(keep as int, k + 1) =~= orig.subrange(keep as int, k as int).push(orig[k as int]));
        assert(ids(orig.subrange(keep as int, k + 1)) =~= ids(orig.subrange(keep as int, k as int)).push(orig[k as int].id@));
        assert(to_remove@.map_values(|s: String| s@) =~= t0.map_values(|s: String| s@).push(orig[k as int].id@));
        k = k + 1;
        assert(to_remove@.map_values(|s: String| s@) =~= ids(orig.subrange(keep as int, k as int)));
    }
    let ghost all = to_remove@.map_values(|s: String| s@);
    assert(all == pruned_ids(orig, keep as nat));
    let mut j: usize = 0;
    assert(all.subrange(0, 0) =~= Seq::<Seq<char>>::empty());
    assert(orig.subrange(keep as int, orig.len() as int).subrange(0, 0) =~= Seq::<SnapshotMeta>::empty());
    while j < to_remove.len()
        invariant
            j <= to_remove.len(),
            keep < orig.len(),
            to_remove.len() == orig.len() - keep,
            all == to_remove@.map_values(|s: String| s@),
            all == ids(orig.subrange(keep as int, orig.len() as int)),
            index@ == delete_all(orig, all.subrange(0, j as int)),
            distinct_ids(orig) ==> index@ == orig.subrange(0, keep as int) + orig.subrange(keep + j, orig.len() as int),
        decreases to_remove.len() - j,
    {
        let ghost before = index@;
        let ghost pre = all.subrange(0, (j + 1) as int);
        assert(pre.drop_last() =~= all.subrange(0, j as int));
        assert(pre.last() == to_remove@[j as int]@);
        proof {
            lemma_first_with_id_bounds(before, to_remove@[j as int]@);
            if distinct_ids(orig) {
                let want = to_remove@[j as int]@;
                assert(want == orig[keep + j].id@);
                assert(before[keep as int] == orig[keep + j]);
                assert forall|m: int| 0 <= m < keep implies (#[trigger] before[m]).id@ != want by {
                    assert(before[m] == orig[m]);
                }
                if let Some(p) = first_with_id(before, want) {
                    if p < keep {
                        assert(before[p].id@ != want);
                    }
                    if p > keep {
                        assert(before[keep as int].id@ == want);
                    }
                } else {
                    assert(before[keep as int].id@ == want);
                }
            }
        }
        let _ = delete_snapshot(index, to_remove[j].as_str());
        proof {
            if distinct_ids(orig) {
                assert(index@ =~= orig.subrange(0, keep as int) + orig.subrange(keep + j + 1, orig.len() as int));
            }
        }
        j = j + 1;
    }
    assert(all.subrange(0, to_remove.len() as int) =~= all);
    proof {
        if distinct_ids(orig) {
            assert(orig.subrange(keep + to_remove.len(), orig.len() as int) =~= Seq::<SnapshotMeta>::empty());
            assert(index@ =~= orig.subrange(0, keep as int));
        }
    }
    Ok(to_remove)
}

/// Records a new snapshot as the newest of the index.
pub fn add_snapshot(index: &mut Vec<SnapshotMeta>, meta: SnapshotMeta)
    ensures
        final(index)@ == seq![meta] + old(index)@,
{
    index.insert(0, meta);
    assert(index@ =~= seq![meta] + old(index)@);
}

/// In an index whose ids are distinct, a deleted snapshot is not found
/// again, and every other snapshot still is.
pub proof fn lemma_deleted_not_found(index: Seq<SnapshotMeta>, id: Seq<char>, other: Seq<char>)
    requires
        distinct_ids(index),
        spec_delete(index, id) is Some,
        other != id,
    ensures
        first_with_id(spec_delete(index, id)->0, id) is None,
        first_with_id(index, other) is Some ==> first_with_id(spec_delete(index, id)->0, other) is Some,
{
    lemma_first_with_id_bounds(index, id);
    let k = first_with_id(index, id)->0;
    let v = index.remove(k);
    assert forall|j: int| 0 <= j < v.len() implies (#[trigger] v[j]).id@ != id by {
        if j < k {
            assert(v[j] == index[j]);
        } else {
            assert(v[j] == index[j + 1]);
        }
    }
    lemma_first_with_id_bounds(v, id);
    if first_with_id(v, id) is Some {
        let m = first_with_id(v, id)->0;
        assert(v[m].id@ == id);
    }
    lemma_first_with_id_bounds(index, other);
    lemma_first_with_id_bounds(v, other);
    if first_with_id(index, other) is Some {
        let p = first_with_id(index, other)->0;
        assert(p != k);
        let q = if p < k { p } else { p - 1 };
        assert(v[q] == index[p]);
        if first_with_id(v, other) is None {
            assert(v[q].id@ != other);
        }
    }
}

} // verus!
