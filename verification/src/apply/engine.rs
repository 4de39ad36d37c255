//! What applying a request or the pending configuration does, in order, and
//! what it reports when every step succeeds.
use vstd::prelude::*;

use super::pending::{pending_is_empty, spec_is_empty};
use super::types::{
    copy_opt_string, copy_opt_swapfile, copy_opt_zram, fv, rv, sv, zv, ApplyRequest, PendingConfig, PendingView,
    SwapfileConfig, SwapfileConfigView, ZramConfig, ZramConfigView,
};
use crate::error::XzramError;
use crate::migrate::ZRAMSWAP_PATH;
use crate::snapshot::index::first_pre_apply;
use crate::snapshot::types::SnapshotMeta;
use crate::sysctl::SysctlValues;
use crate::text::{owned, push_str};

verus! {

/// One step of applying configuration.
#[derive(Debug, Clone)]
pub enum ApplyAction {
    /// Take the pre-apply snapshot of the pending configuration.
    SnapshotBeforeApply,
    /// Disable zram-generator (an empty override) after stopping the units.
    DisableZram,
    /// Write the device into the generator config and restart its units.
    ConfigureZram(ZramConfig),
    /// Swap off, drop from fstab and delete a swapfile.
    RemoveSwapfile(String),
    /// Allocate, format, enable and register a swapfile.
    CreateSwapfile(SwapfileConfig),
    /// Reallocate a swapfile at a new size, keeping its fstab priority.
    ResizeSwapfile { path: String, size_mb: u64 },
    /// Write the sysctl drop-in and load it.
    SetSysctl(SysctlValues),
    /// Disable zramswap.service and archive its config.
    FinalizeZramTools,
    /// Remove pending.json.
    ClearPending,
}

pub enum ActionView {
    SnapshotBeforeApply,
    DisableZram,
    ConfigureZram(ZramConfigView),
    RemoveSwapfile(Seq<char>),
    CreateSwapfile(SwapfileConfigView),
    ResizeSwapfile(Seq<char>, u64),
    SetSysctl(SysctlValues),
    FinalizeZramTools,
    ClearPending,
}

impl View for ApplyAction {
    type V = ActionView;

    open spec fn view(&self) -> ActionView {
        match self {
            ApplyAction::SnapshotBeforeApply => ActionView::SnapshotBeforeApply,
            ApplyAction::DisableZram => ActionView::DisableZram,
            ApplyAction::ConfigureZram(z) => ActionView::ConfigureZram(z@),
            ApplyAction::RemoveSwapfile(p) => ActionView::RemoveSwapfile(p@),
            ApplyAction::CreateSwapfile(c) => ActionView::CreateSwapfile(c@),
            ApplyAction::ResizeSwapfile { path, size_mb } => ActionView::ResizeSwapfile(path@, *size_mb),
            ApplyAction::SetSysctl(v) => ActionView::SetSysctl(*v),
            ApplyAction::FinalizeZramTools => ActionView::FinalizeZramTools,
            ApplyAction::ClearPending => ActionView::ClearPending,
        }
    }
}

pub open spec fn actions_view(v: Seq<ApplyAction>) -> Seq<ActionView> {
    v.map_values(|a: ApplyAction| a@)
}

pub open spec fn strs(v: Seq<String>) -> Seq<Seq<char>> {
    v.map_values(|s: String| s@)
}

/// The steps of an apply and the messages reported when all succeed.
pub struct ApplyPlan {
    pub actions: Vec<ApplyAction>,
    pub messages: Vec<String>,
}

/// The request as plain values.
pub struct RequestView {
    pub zram: Option<ZramConfigView>,
    pub swapfile: Option<SwapfileConfigView>,
    pub disable_zram: bool,
    pub remove_swapfile: Option<Seq<char>>,
}

pub open spec fn request_view(r: ApplyRequest) -> RequestView {
    RequestView { zram: zv(r.zram), swapfile: fv(r.swapfile), disable_zram: r.disable_zram, remove_swapfile: sv(r.remove_swapfile) }
}

/// Applying a request: disabling zram wins over a zram config, removing a
/// swapfile wins over creating one.
pub open spec fn spec_apply(r: RequestView) -> (Seq<ActionView>, Seq<Seq<char>>) {
    let z: (Seq<ActionView>, Seq<Seq<char>>) = if r.disable_zram {
        (seq![ActionView::DisableZram], seq!["Disabled zram configuration"@])
    } else {
        match r.zram {
            Some(c) => (seq![ActionView::ConfigureZram(c)], seq!["Applied zram config for "@ + c.device]),
            None => (Seq::empty(), Seq::empty()),
        }
    };
    let f: (Seq<ActionView>, Seq<Seq<char>>) = match r.remove_swapfile {
        Some(p) => (seq![ActionView::RemoveSwapfile(p)], seq!["Removed swapfile "@ + p]),
        None => match r.swapfile {
            Some(c) => (seq![ActionView::CreateSwapfile(c)], seq!["Created swapfile "@ + c.path]),
            None => (Seq::empty(), Seq::empty()),
        },
    };
    (z.0 + f.0, z.1 + f.1)
}

fn add_action(actions: &mut Vec<ApplyAction>, a: ApplyAction)
    ensures
        actions_view(final(actions)@) == actions_view(old(actions)@).push(a@),
{
    actions.push(a);
    assert(actions_view(actions@) =~= actions_view(old(actions)@).push(a@));
}

fn add_message(messages: &mut Vec<String>, m: String)
    ensures
        strs(final(messages)@) == strs(old(messages)@).push(m@),
{
    messages.push(m);
    assert(strs(messages@) =~= strs(old(messages)@).push(m@));
}

fn text(prefix: &str, s: &str) -> (t: String)
    ensures
        t@ == prefix@ + s@,
{
    let mut t = owned(prefix);
    push_str(&mut t, s);
    t
}

fn add_request(actions: &mut Vec<ApplyAction>, messages: &mut Vec<String>, request: &ApplyRequest)
    ensures
        actions_view(final(actions)@) == actions_view(old(actions)@) + spec_apply(request_view(*request)).0,
        strs(final(messages)@) == strs(old(messages)@) + spec_apply(request_view(*request)).1,
{
    let ghost a0 = actions_view(actions@);
    let ghost m0 = strs(messages@);
    if request.disable_zram {
        add_action(actions, ApplyAction::DisableZram);
        add_message(messages, owned("Disabled zram configuration"));
    } else if let Some(z) = &request.zram {
        add_action(actions, ApplyAction::ConfigureZram(z.duplicate()));
        add_message(messages, text("Applied zram config for ", z.device.as_str()));
    }
    let ghost a1 = actions_view(actions@);
    let ghost m1 = strs(messages@);
    if let Some(p) = &request.remove_swapfile {
        add_action(actions, ApplyAction::RemoveSwapfile(owned(p.as_str())));
        add_message(messages, text("Removed swapfile ", p.as_str()));
    } else if let Some(c) = &request.swapfile {
        add_action(actions, ApplyAction::CreateSwapfile(c.duplicate()));
        add_message(messages, text("Created swapfile ", c.path.as_str()));
    }
    assert(actions_view(actions@) =~= a0 + spec_apply(request_view(*request)).0);
    assert(strs(messages@) =~= m0 + spec_apply(request_view(*request)).1);
}

/// The steps that apply a request.
pub fn apply(request: &ApplyRequest) -> (p: ApplyPlan)
    ensures
        actions_view(p.actions@) == spec_apply(request_view(*request)).0,
        strs(p.messages@) == spec_apply(request_view(*request)).1,
{
    let mut actions: Vec<ApplyAction> = Vec::new();
    let mut messages: Vec<String> = Vec::new();
    assert(actions_view(actions@) =~= Seq::<ActionView>::empty());
    assert(strs(messages@) =~= Seq::<Seq<char>>::empty());
    add_request(&mut actions, &mut messages, request);
    assert(actions_view(actions@) =~= spec_apply(request_view(*request)).0);
    assert(strs(messages@) =~= spec_apply(request_view(*request)).1);
    ApplyPlan { actions, messages }
}

pub open spec fn pending_request(p: PendingView) -> RequestView {
    RequestView { zram: p.zram, swapfile: p.swapfile, disable_zram: p.disable_zram, remove_swapfile: p.remove_swapfile }
}

/// After the request part: a resize, the sysctl values, and finishing a
/// zram-tools migration when its config still exists.
pub open spec fn pending_tail(p: PendingView, zramswap_exists: bool) -> (Seq<ActionView>, Seq<Seq<char>>) {
    let resize: (Seq<ActionView>, Seq<Seq<char>>) = match p.swapfile_resize {
        Some(r) => (seq![ActionView::ResizeSwapfile(r.path, r.size_mb)], seq!["Resized swapfile "@ + r.path]),
        None => (Seq::empty(), Seq::empty()),
    };
    let sysctl: (Seq<ActionView>, Seq<Seq<char>>) = match p.sysctl {
        Some(v) => (seq![ActionView::SetSysctl(v)], seq!["Applied sysctl values"@]),
        None => (Seq::empty(), Seq::empty()),
    };
    let fin: (Seq<ActionView>, Seq<Seq<char>>) = if zramswap_exists {
        (
            seq![ActionView::FinalizeZramTools],
            seq![
                "Disabled zramswap.service"@,
                "Archived "@ + ZRAMSWAP_PATH@ + " to "@ + ZRAMSWAP_PATH@ + ".xzram.bak"@,
            ],
        )
    } else {
        (Seq::empty(), Seq::empty())
    };
    (resize.0 + sysctl.0 + fin.0, resize.1 + sysctl.1 + fin.1)
}

/// Applying the pending configuration: the pre-apply snapshot, the request
/// part, the tail, and clearing pending.json.
pub open spec fn spec_apply_pending(p: PendingView, zramswap_exists: bool) -> (Seq<ActionView>, Seq<Seq<char>>) {
    let req = spec_apply(pending_request(p));
    let tail = pending_tail(p, zramswap_exists);
    (seq![ActionView::SnapshotBeforeApply] + req.0 + tail.0 + seq![ActionView::ClearPending], req.1 + tail.1)
}

fn add_tail(actions: &mut Vec<ApplyAction>, messages: &mut Vec<String>, pending: &PendingConfig, zramswap_exists: bool)
    ensures
        actions_view(final(actions)@) == actions_view(old(actions)@) + pending_tail(pending@, zramswap_exists).0,
        strs(final(messages)@) == strs(old(messages)@) + pending_tail(pending@, zramswap_exists).1,
{
    let ghost a0 = actions_view(actions@);
    let ghost m0 = strs(messages@);
    if let Some(r) = &pending.swapfile_resize {
        add_action(actions, ApplyAction::ResizeSwapfile { path: owned(r.path.as_str()), size_mb: r.size_mb });
        add_message(messages, text("Resized swapfile ", r.path.as_str()));
    }
    let ghost a2 = actions_view(actions@);
    let ghost m2 = strs(messages@);
    if let Some(v) = pending.sysctl {
        add_action(actions, ApplyAction::SetSysctl(v));
        add_message(messages, owned("Applied sysctl values"));
    }
    let ghost a3 = actions_view(actions@);
    let ghost m3 = strs(messages@);
    if zramswap_exists {
        add_action(actions, ApplyAction::FinalizeZramTools);
        add_message(messages, owned("Disabled zramswap.service"));
        let mut m = text("Archived ", ZRAMSWAP_PATH);
        push_str(&mut m, " to ");
        push_str(&mut m, ZRAMSWAP_PATH);
        push_str(&mut m, ".xzram.bak");
        add_message(messages, m);
    }
    assert(actions_view(actions@) =~= a0 + pending_tail(pending@, zramswap_exists).0);
    assert(strs(messages@) =~= m0 + pending_tail(pending@, zramswap_exists).1);
}

/// The steps that apply the pending configuration (`None` when nothing is
/// stored); `zramswap_exists` tells whether a zram-tools config remains.
/// Refused when nothing is pending or the pending configuration is empty.
pub fn apply_pending(pending: Option<PendingConfig>, zramswap_exists: bool) -> (r: Result<ApplyPlan, XzramError>)
    ensures
        pending is None ==> r is Err && r->Err_0 is NotFound && r->Err_0->NotFound_0@
            == "No pending configuration to apply"@,
        pending matches Some(p) ==> (spec_is_empty(p@) ==> r is Err && r->Err_0 is Validation
            && r->Err_0->Validation_0@ == "Pending configuration is empty"@),
        pending matches Some(p) ==> (!spec_is_empty(p@) ==> r is Ok && actions_view(r->Ok_0.actions@)
            == spec_apply_pending(p@, zramswap_exists).0 && strs(r->Ok_0.messages@) == spec_apply_pending(
            p@,
            zramswap_exists,
        ).1),
{
    let pending = match pending {
        Some(p) => p,
        None => return Err(XzramError::NotFound(owned("No pending configuration to apply"))),
    };
    if pending_is_empty(&pending) {
        return Err(XzramError::Validation(owned("Pending configuration is empty")));
    }
    let ghost pv = pending@;
    let mut actions: Vec<ApplyAction> = Vec::new();
    let mut messages: Vec<String> = Vec::new();
    assert(strs(messages@) =~= Seq::<Seq<char>>::empty());
    add_action(&mut actions, ApplyAction::SnapshotBeforeApply);
    assert(actions_view(actions@) =~= seq![ActionView::SnapshotBeforeApply]);
    let request = ApplyRequest {
        zram: copy_opt_zram(&pending.zram),
        swapfile: copy_opt_swapfile(&pending.swapfile),
        disable_zram: pending.disable_zram,
        remove_swapfile: copy_opt_string(&pending.remove_swapfile),
    };
    assert(request_view(request) == pending_request(pv));
    add_request(&mut actions, &mut messages, &request);
    add_tail(&mut actions, &mut messages, &pending, zramswap_exists);
    add_action(&mut actions, ApplyAction::ClearPending);
    assert(actions_view(actions@) =~= spec_apply_pending(pv, zramswap_exists).0);
    assert(strs(messages@) =~= spec_apply_pending(pv, zramswap_exists).1);
    Ok(ApplyPlan { actions, messages })
}

/// The error when a backend cannot run on this host.
pub fn backend_unavailable(name: &str) -> (e: XzramError)
    ensures
        e is Backend && e->Backend_0@ == "backend '"@ + name@ + "' is not available on this system"@,
{
    let mut m = owned("backend '");
    push_str(&mut m, name);
    push_str(&mut m, "' is not available on this system");
    XzramError::Backend(m)
}

/// A backend may be used only where it is available.
pub fn ensure_backend_available(name: &str, available: bool) -> (r: Result<(), XzramError>)
    ensures
        r is Ok <==> available,
        r matches Err(e) ==> e is Backend && e->Backend_0@ == "backend '"@ + name@ + "' is not available on this system"@,
{
    if available {
        Ok(())
    } else {
        Err(backend_unavailable(name))
    }
}

/// The snapshot that rolling back restores: the newest pre-apply snapshot.
pub fn rollback(index: &Vec<SnapshotMeta>) -> (r: Result<String, XzramError>)
    ensures
        match first_pre_apply(index@) {
            Some(i) => r is Ok && r->Ok_0@ == index@[i].id@,
            None => r is Err && r->Err_0 is NotFound && r->Err_0->NotFound_0@ == "no pre_apply snapshot found"@,
        },
{
    crate::snapshot::restore::rollback(index)
}

// ---------------------------------------------------------------------------
// Laws of applying
// ---------------------------------------------------------------------------

/// Applying a request carries out each part of it with its message and
/// nothing else: disabling zram (which wins over a zram config), else the
/// zram config of its device; removing a swapfile (which wins over creating
/// one), else creating the swapfile.
pub proof fn lemma_apply_carries_out(r: RequestView)
    ensures
        ({
            let acts = spec_apply(r).0;
            let msgs = spec_apply(r).1;
            let zn: int = if r.disable_zram || r.zram is Some { 1 } else { 0 };
            let fnum: int = if r.remove_swapfile is Some || r.swapfile is Some { 1 } else { 0 };
            &&& acts.len() == zn + fnum
            &&& msgs.len() == zn + fnum
            &&& r.disable_zram ==> acts.contains(ActionView::DisableZram) && msgs.contains(
                "Disabled zram configuration"@,
            )
            &&& (!r.disable_zram && r.zram is Some) ==> acts.contains(ActionView::ConfigureZram(r.zram->0))
                && msgs.contains("Applied zram config for "@ + r.zram->0.device)
            &&& r.remove_swapfile matches Some(p) ==> acts.contains(ActionView::RemoveSwapfile(p)) && msgs.contains(
                "Removed swapfile "@ + p,
            )
            &&& (r.remove_swapfile is None && r.swapfile is Some) ==> acts.contains(
                ActionView::CreateSwapfile(r.swapfile->0),
            ) && msgs.contains("Created swapfile "@ + r.swapfile->0.path)
        }),
{
    let acts = spec_apply(r).0;
    let msgs = spec_apply(r).1;
    let zn: int = if r.disable_zram || r.zram is Some { 1 } else { 0 };
    if r.disable_zram {
        assert(acts[0] == ActionView::DisableZram);
        assert(msgs[0] == "Disabled zram configuration"@);
    } else if r.zram is Some {
        assert(acts[0] == ActionView::ConfigureZram(r.zram->0));
        assert(msgs[0] == "Applied zram config for "@ + r.zram->0.device);
    }
    if r.remove_swapfile is Some {
        assert(acts[zn] == ActionView::RemoveSwapfile(r.remove_swapfile->0));
        assert(msgs[zn] == "Removed swapfile "@ + r.remove_swapfile->0);
    } else if r.swapfile is Some {
        assert(acts[zn] == ActionView::CreateSwapfile(r.swapfile->0));
        assert(msgs[zn] == "Created swapfile "@ + r.swapfile->0.path);
    }
}

proof fn lemma_contains_concat<A>(a: Seq<A>, b: Seq<A>, x: A)
    ensures
        a.contains(x) ==> (a + b).contains(x),
        b.contains(x) ==> (a + b).contains(x),
{
    if a.contains(x) {
        let k = choose|k: int| 0 <= k < a.len() && a[k] == x;
        assert((a + b)[k] == x);
    }
    if b.contains(x) {
        let k = choose|k: int| 0 <= k < b.len() && b[k] == x;
        assert((a + b)[a.len() + k] == x);
    }
}

proof fn lemma_in_plan(p: PendingView, zramswap_exists: bool, x: ActionView)
    requires
        spec_apply(pending_request(p)).0.contains(x) || pending_tail(p, zramswap_exists).0.contains(x),
    ensures
        spec_apply_pending(p, zramswap_exists).0.contains(x),
{
    let req = spec_apply(pending_request(p));
    let tail = pending_tail(p, zramswap_exists);
    let head = seq![ActionView::SnapshotBeforeApply];
    let close = seq![ActionView::ClearPending];
    lemma_contains_concat(head, req.0, x);
    lemma_contains_concat(head + req.0, tail.0, x);
    lemma_contains_concat(head + req.0 + tail.0, close, x);
}

proof fn lemma_in_messages(p: PendingView, zramswap_exists: bool, m: Seq<char>)
    requires
        spec_apply(pending_request(p)).1.contains(m) || pending_tail(p, zramswap_exists).1.contains(m),
    ensures
        spec_apply_pending(p, zramswap_exists).1.contains(m),
{
    lemma_contains_concat(spec_apply(pending_request(p)).1, pending_tail(p, zramswap_exists).1, m);
}

/// Applying the pending configuration takes the pre-apply snapshot first and
/// clears pending.json last, and carries out each staged change with its
/// message: disabling zram or its config, removing or creating a swapfile,
/// a resize, the sysctl values, and finishing a zram-tools migration when
/// its config exists.
pub proof fn lemma_apply_pending_carries_out(p: PendingView, zramswap_exists: bool)
    ensures
        ({
            let acts = spec_apply_pending(p, zramswap_exists).0;
            let msgs = spec_apply_pending(p, zramswap_exists).1;
            &&& acts.len() >= 2 && acts[0] == ActionView::SnapshotBeforeApply && acts.last() == ActionView::ClearPending
            &&& p.disable_zram ==> acts.contains(ActionView::DisableZram)
            &&& (!p.disable_zram && p.zram is Some) ==> acts.contains(ActionView::ConfigureZram(p.zram->0))
            &&& p.remove_swapfile matches Some(q) ==> acts.contains(ActionView::RemoveSwapfile(q)) && msgs.contains(
                "Removed swapfile "@ + q,
            )
            &&& (p.remove_swapfile is None && p.swapfile is Some) ==> acts.contains(
                ActionView::CreateSwapfile(p.swapfile->0),
            ) && msgs.contains("Created swapfile "@ + p.swapfile->0.path)
            &&& p.swapfile_resize matches Some(rz) ==> acts.contains(ActionView::ResizeSwapfile(rz.path, rz.size_mb))
                && msgs.contains("Resized swapfile "@ + rz.path)
            &&& p.sysctl matches Some(v) ==> acts.contains(ActionView::SetSysctl(v)) && msgs.contains(
                "Applied sysctl values"@,
            )
            &&& zramswap_exists ==> acts.contains(ActionView::FinalizeZramTools)
        }),
{
    let req = spec_apply(pending_request(p));
    let tail = pending_tail(p, zramswap_exists);
    let r = pending_request(p);
    lemma_apply_carries_out(r);
    let acts = spec_apply_pending(p, zramswap_exists).0;
    assert(acts[0] == ActionView::SnapshotBeforeApply);
    assert(acts.last() == ActionView::ClearPending);
    if p.disable_zram {
        lemma_in_plan(p, zramswap_exists, ActionView::DisableZram);
    } else if p.zram is Some {
        lemma_in_plan(p, zramswap_exists, ActionView::ConfigureZram(p.zram->0));
    }
    if p.remove_swapfile is Some {
        lemma_in_plan(p, zramswap_exists, ActionView::RemoveSwapfile(p.remove_swapfile->0));
        lemma_in_messages(p, zramswap_exists, "Removed swapfile "@ + p.remove_swapfile->0);
    } else if p.swapfile is Some {
        lemma_in_plan(p, zramswap_exists, ActionView::CreateSwapfile(p.swapfile->0));
        lemma_in_messages(p, zramswap_exists, "Created swapfile "@ + p.swapfile->0.path);
    }
    let rz: (Seq<ActionView>, Seq<Seq<char>>) = match p.swapfile_resize {
        Some(x) => (seq![ActionView::ResizeSwapfile(x.path, x.size_mb)], seq!["Resized swapfile "@ + x.path]),
        None => (Seq::empty(), Seq::empty()),
    };
    let sc: (Seq<ActionView>, Seq<Seq<char>>) = match p.sysctl {
        Some(v) => (seq![ActionView::SetSysctl(v)], seq!["Applied sysctl values"@]),
        None => (Seq::empty(), Seq::empty()),
    };
    let rn = rz.0.len() as int;
    let sn = sc.0.len() as int;
    if p.swapfile_resize is Some {
        let x = p.swapfile_resize->0;
        assert(tail.0[0] == ActionView::ResizeSwapfile(x.path, x.size_mb));
        assert(tail.1[0] == "Resized swapfile "@ + x.path);
        lemma_in_plan(p, zramswap_exists, ActionView::ResizeSwapfile(x.path, x.size_mb));
        lemma_in_messages(p, zramswap_exists, "Resized swapfile "@ + x.path);
    }
    if p.sysctl is Some {
        assert(tail.0[rn] == ActionView::SetSysctl(p.sysctl->0));
        assert(tail.1[rz.1.len() as int] == "Applied sysctl values"@);
        lemma_in_plan(p, zramswap_exists, ActionView::SetSysctl(p.sysctl->0));
        lemma_in_messages(p, zramswap_exists, "Applied sysctl values"@);
    }
    if zramswap_exists {
        assert(tail.0[rn + sn] == ActionView::FinalizeZramTools);
        lemma_in_plan(p, zramswap_exists, ActionView::FinalizeZramTools);
    }
}

} // verus!
