//! Privileged operations from the command line: which D-Bus calls an action
//! makes, when the daemon counts as unavailable, and which helper pkexec
//! runs.
use vstd::prelude::*;

use crate::text::{chars_of, contains_seq, contains_str, eq_str, owned, push_str, str_lowercase, to_lowercase};

verus! {

pub const ANNOTATED_HELPER: &'static str = "/usr/libexec/xzram-helper";

/// A D-Bus call argument.
#[derive(Debug, Clone)]
pub enum DbusArg {
    Str(String),
    U64(u64),
    U32(u32),
    Bool(bool),
}

/// What to do with a call's reply.
#[derive(Debug, Clone, Copy, PartialEq, Eq, Structural)]
pub enum DbusReply {
    /// Nothing.
    Ignore,
    /// Print each message of the returned list.
    PrintMessages,
    /// Print `Pruned N snapshot(s)` for the returned count.
    PrintPruned,
    /// Print the `json` entry of the returned map.
    PrintJson,
}

/// One method call on the xzram manager object.
#[derive(Debug, Clone)]
pub struct DbusCall {
    pub method: String,
    pub args: Vec<DbusArg>,
    pub reply: DbusReply,
}

/// The calls of an action, then the line printed when they all succeed.
#[derive(Debug, Clone)]
pub struct DbusPlan {
    pub calls: Vec<DbusCall>,
    pub done: Option<String>,
}

/// The payload fields an action reads, as the JSON payload gave them
/// (`None` when missing or of another type).
#[derive(Debug, Clone)]
pub struct PayloadFields {
    pub id: Option<String>,
    pub keep: Option<u64>,
    pub trigger: Option<String>,
    pub label: Option<String>,
    pub path: Option<String>,
    pub size_mb: Option<u64>,
    pub mkdir_parents: Option<bool>,
}

pub enum ArgView {
    Str(Seq<char>),
    U64(u64),
    U32(u32),
    Bool(bool),
}

pub struct CallView {
    pub method: Seq<char>,
    pub args: Seq<ArgView>,
    pub reply: DbusReply,
}

pub open spec fn arg_view(a: DbusArg) -> ArgView {
    match a {
        DbusArg::Str(s) => ArgView::Str(s@),
        DbusArg::U64(v) => ArgView::U64(v),
        DbusArg::U32(v) => ArgView::U32(v),
        DbusArg::Bool(b) => ArgView::Bool(b),
    }
}

pub open spec fn call_view(c: DbusCall) -> CallView {
    CallView { method: c.method@, args: c.args@.map_values(|a: DbusArg| arg_view(a)), reply: c.reply }
}

pub open spec fn calls_view(v: Seq<DbusCall>) -> Seq<CallView> {
    v.map_values(|c: DbusCall| call_view(c))
}

pub open spec fn text_or(o: Option<String>, d: Seq<char>) -> Seq<char> {
    match o {
        Some(s) => s@,
        None => d,
    }
}

pub open spec fn call(method: Seq<char>, args: Seq<ArgView>, reply: DbusReply) -> CallView {
    CallView { method, args, reply }
}

/// The D-Bus calls of each action, and the closing line.
pub open spec fn spec_dbus_plan(action: Seq<char>, payload: Seq<char>, f: PayloadFields) -> Result<
    (Seq<CallView>, Option<Seq<char>>),
    Seq<char>,
> {
    let apply = call("Apply"@, Seq::empty(), DbusReply::Ignore);
    if action == "stage"@ {
        Ok((seq![call("StageAction"@, seq![ArgView::Str(payload)], DbusReply::Ignore)], None))
    } else if action == "pending.clear"@ {
        Ok((seq![call("ClearPending"@, Seq::empty(), DbusReply::Ignore)], None))
    } else if action == "apply"@ {
        Ok((seq![call("Apply"@, Seq::empty(), DbusReply::PrintMessages)], None))
    } else if action == "rollback"@ {
        Ok((seq![call("Rollback"@, Seq::empty(), DbusReply::PrintMessages)], None))
    } else if action == "snapshot.restore"@ {
        Ok((seq![call("RestoreSnapshot"@, seq![ArgView::Str(text_or(f.id, Seq::empty()))], DbusReply::PrintMessages)], None))
    } else if action == "snapshot.delete"@ {
        Ok(
            (
                seq![call("DeleteSnapshot"@, seq![ArgView::Str(text_or(f.id, Seq::empty()))], DbusReply::Ignore)],
                Some("Deleted snapshot "@ + text_or(f.id, Seq::empty())),
            ),
        )
    } else if action == "snapshot.prune"@ {
        let keep: u64 = match f.keep {
            Some(k) => k,
            None => 50,
        };
        Ok(
            (
                seq![call("PruneSnapshots"@, seq![ArgView::U32((keep % 0x1_0000_0000) as u32)], DbusReply::PrintPruned)],
                None,
            ),
        )
    } else if action == "snapshot.create"@ {
        Ok(
            (
                seq![
                    call(
                        "CreateSnapshot"@,
                        seq![ArgView::Str(text_or(f.trigger, "manual"@)), ArgView::Str(text_or(f.label, Seq::empty()))],
                        DbusReply::PrintJson,
                    ),
                ],
                None,
            ),
        )
    } else if action == "zram.configure"@ {
        Ok((seq![call("ApplyNowZram"@, seq![ArgView::Str(payload)], DbusReply::Ignore)], Some("ZRAM configured"@)))
    } else if action == "zram.disable"@ {
        Ok(
            (
                seq![
                    call("DisableZram"@, Seq::empty(), DbusReply::Ignore),
                    call("Apply"@, Seq::empty(), DbusReply::PrintMessages),
                ],
                Some("ZRAM disable applied"@),
            ),
        )
    } else if action == "swapfile.create"@ {
        Ok(
            (
                seq![call("ApplyNowSwapfileCreate"@, seq![ArgView::Str(payload)], DbusReply::Ignore)],
                Some("Swapfile created"@),
            ),
        )
    } else if action == "swapfile.resize"@ {
        Ok(
            (
                seq![
                    call(
                        "ResizeSwapfile"@,
                        seq![
                            ArgView::Str(text_or(f.path, Seq::empty())),
                            ArgView::U64(
                                match f.size_mb {
                                    Some(s) => s,
                                    None => 0u64,
                                },
                            ),
                        ],
                        DbusReply::Ignore,
                    ),
                    apply,
                ],
                Some("Swapfile resized"@),
            ),
        )
    } else if action == "swapfile.remove"@ {
        Ok(
            (
                seq![call("RemoveSwapfile"@, seq![ArgView::Str(text_or(f.path, Seq::empty()))], DbusReply::Ignore), apply],
                Some("Swapfile removed"@),
            ),
        )
    } else if action == "swapfile.prepare"@ {
        Ok(
            (
                seq![
                    call(
                        "PrepareSwapfileBtrfs"@,
                        seq![
                            ArgView::Str(text_or(f.path, Seq::empty())),
                            ArgView::Bool(f.mkdir_parents == Some(true)),
                        ],
                        DbusReply::PrintJson,
                    ),
                ],
                None,
            ),
        )
    } else if action == "sysctl.set"@ {
        Ok(
            (
                seq![call("SetSysctl"@, seq![ArgView::Str(payload)], DbusReply::Ignore), apply],
                Some("Sysctl values applied"@),
            ),
        )
    } else if action == "zram.migrate"@ {
        Ok((seq![call("MigrateZram"@, Seq::empty(), DbusReply::Ignore)], None))
    } else if action == "swap.activate"@ {
        Err("swap.activate not supported via D-Bus; use pkexec"@)
    } else {
        Err("unsupported D-Bus action: "@ + action)
    }
}

fn arg_str(s: String) -> (a: DbusArg)
    ensures
        arg_view(a) == ArgView::Str(s@),
{
    DbusArg::Str(s)
}

fn mk_call(method: &str, args: Vec<DbusArg>, reply: DbusReply) -> (c: DbusCall)
    ensures
        call_view(c) == call(method@, args@.map_values(|a: DbusArg| arg_view(a)), reply),
{
    DbusCall { method: owned(method), args, reply }
}

fn no_args() -> (v: Vec<DbusArg>)
    ensures
        v@.map_values(|a: DbusArg| arg_view(a)) == Seq::<ArgView>::empty(),
{
    let v: Vec<DbusArg> = Vec::new();
    assert(v@.map_values(|a: DbusArg| arg_view(a)) =~= Seq::<ArgView>::empty());
    v
}

fn one_arg(a: DbusArg) -> (v: Vec<DbusArg>)
    ensures
        v@.map_values(|x: DbusArg| arg_view(x)) == seq![arg_view(a)],
{
    let v = vec![a];
    assert(v@.map_values(|x: DbusArg| arg_view(x)) =~= seq![arg_view(v@[0])]);
    v
}

fn two_args(a: DbusArg, b: DbusArg) -> (v: Vec<DbusArg>)
    ensures
        v@.map_values(|x: DbusArg| arg_view(x)) == seq![arg_view(a), arg_view(b)],
{
    let v = vec![a, b];
    assert(v@.map_values(|x: DbusArg| arg_view(x)) =~= seq![arg_view(v@[0]), arg_view(v@[1])]);
    v
}

fn single(c: DbusCall) -> (v: Vec<DbusCall>)
    ensures
        calls_view(v@) == seq![call_view(c)],
{
    let v = vec![c];
    assert(calls_view(v@) =~= seq![call_view(v@[0])]);
    v
}

fn pair(c: DbusCall, d: DbusCall) -> (v: Vec<DbusCall>)
    ensures
        calls_view(v@) == seq![call_view(c), call_view(d)],
{
    let v = vec![c, d];
    assert(calls_view(v@) =~= seq![call_view(v@[0]), call_view(v@[1])]);
    v
}

fn or_empty(o: &Option<String>) -> (s: String)
    ensures
        s@ == text_or(*o, Seq::empty()),
{
    match o {
        Some(t) => owned(t.as_str()),
        None => String::new(),
    }
}

fn plan(calls: Vec<DbusCall>, done: Option<&str>) -> (p: DbusPlan)
    ensures
        calls_view(p.calls@) == calls_view(calls@),
        crate::apply::types::sv(p.done) == (match done {
            Some(d) => Some(d@),
            None => None,
        }),
{
    DbusPlan {
        calls,
        done: match done {
            Some(d) => Some(owned(d)),
            None => None,
        },
    }
}

pub open spec fn plan_view(p: DbusPlan) -> (Seq<CallView>, Option<Seq<char>>) {
    (calls_view(p.calls@), crate::apply::types::sv(p.done))
}

/// The D-Bus calls that carry out `action` with its payload and payload
/// fields, or the reason it cannot go over D-Bus.
pub fn dbus_plan(action: &str, payload: &str, fields: &PayloadFields) -> (r: Result<DbusPlan, String>)
    ensures
        match spec_dbus_plan(action@, payload@, *fields) {
            Ok(p) => r is Ok && plan_view(r->Ok_0) == p,
            Err(m) => r is Err && r->Err_0@ == m,
        },
{
    let a = chars_of(action);
    if eq_str(&a, "stage") {
        let p = plan(single(mk_call("StageAction", one_arg(arg_str(owned(payload))), DbusReply::Ignore)), None);
        assert(plan_view(p) == spec_dbus_plan(action@, payload@, *fields)->Ok_0);
        Ok(p)
    } else if eq_str(&a, "pending.clear") {
        let p = plan(single(mk_call("ClearPending", no_args(), DbusReply::Ignore)), None);
        assert(plan_view(p) == spec_dbus_plan(action@, payload@, *fields)->Ok_0);
        Ok(p)
    } else if eq_str(&a, "apply") {
        let p = plan(single(mk_call("Apply", no_args(), DbusReply::PrintMessages)), None);
        assert(plan_view(p) == spec_dbus_plan(action@, payload@, *fields)->Ok_0);
        Ok(p)
    } else if eq_str(&a, "rollback") {
        let p = plan(single(mk_call("Rollback", no_args(), DbusReply::PrintMessages)), None);
        assert(plan_view(p) == spec_dbus_plan(action@, payload@, *fields)->Ok_0);
        Ok(p)
    } else if eq_str(&a, "snapshot.restore") {
        let p =
            plan(
                single(mk_call("RestoreSnapshot", one_arg(arg_str(or_empty(&fields.id))), DbusReply::PrintMessages)),
                None,
            )
        ;
        assert(plan_view(p) == spec_dbus_plan(action@, payload@, *fields)->Ok_0);
        Ok(p)
    } else if eq_str(&a, "snapshot.delete") {
        let id = or_empty(&fields.id);
        let mut done = owned("Deleted snapshot ");
        push_str(&mut done, id.as_str());
        let calls = single(mk_call("DeleteSnapshot", one_arg(arg_str(id)), DbusReply::Ignore));
        let p = DbusPlan { calls, done: Some(done) };
        assert(plan_view(p) == spec_dbus_plan(action@, payload@, *fields)->Ok_0);
        Ok(p)
    } else if eq_str(&a, "snapshot.prune") {
        let keep: u64 = match fields.keep {
            Some(k) => k,
            None => 50,
        };
        let k32: u32 = (keep % 0x1_0000_0000) as u32;
        let p = plan(single(mk_call("PruneSnapshots", one_arg(DbusArg::U32(k32)), DbusReply::PrintPruned)), None);
        assert(plan_view(p) == spec_dbus_plan(action@, payload@, *fields)->Ok_0);
        Ok(p)
    } else if eq_str(&a, "snapshot.create") {
        let trigger = match &fields.trigger {
            Some(t) => owned(t.as_str()),
            None => owned("manual"),
        };
        let label = or_empty(&fields.label);
        let p =
            plan(
                single(mk_call("CreateSnapshot", two_args(arg_str(trigger), arg_str(label)), DbusReply::PrintJson)),
                None,
            )
        ;
        assert(plan_view(p) == spec_dbus_plan(action@, payload@, *fields)->Ok_0);
        Ok(p)
    } else if eq_str(&a, "zram.configure") {
        let p =
            plan(
                single(mk_call("ApplyNowZram", one_arg(arg_str(owned(payload))), DbusReply::Ignore)),
                Some("ZRAM configured"),
            )
        ;
        assert(plan_view(p) == spec_dbus_plan(action@, payload@, *fields)->Ok_0);
        Ok(p)
    } else if eq_str(&a, "zram.disable") {
        let p =
            plan(
                pair(
                    mk_call("DisableZram", no_args(), DbusReply::Ignore),
                    mk_call("Apply", no_args(), DbusReply::PrintMessages),
                ),
                Some("ZRAM disable applied"),
            )
        ;
        assert(plan_view(p) == spec_dbus_plan(action@, payload@, *fields)->Ok_0);
        Ok(p)
    } else if eq_str(&a, "swapfile.create") {
        let p =
            plan(
                single(mk_call("ApplyNowSwapfileCreate", one_arg(arg_str(owned(payload))), DbusReply::Ignore)),
                Some("Swapfile created"),
            )
        ;
        assert(plan_view(p) == spec_dbus_plan(action@, payload@, *fields)->Ok_0);
        Ok(p)
    } else if eq_str(&a, "swapfile.resize") {
        let size: u64 = match fields.size_mb {
            Some(s) => s,
            None => 0,
        };
        let args = two_args(arg_str(or_empty(&fields.path)), DbusArg::U64(size));
        let p = plan(
            pair(
                mk_call("ResizeSwapfile", args, DbusReply::Ignore),
                mk_call("Apply", no_args(), DbusReply::Ignore),
            ),
            Some("Swapfile resized"),
        );
        assert(spec_dbus_plan(action@, payload@, *fields)->Ok_0.0[0].args =~= calls_view(p.calls@)[0].args);
        assert(spec_dbus_plan(action@, payload@, *fields)->Ok_0.0 =~= calls_view(p.calls@));
        assert(plan_view(p) == spec_dbus_plan(action@, payload@, *fields)->Ok_0);
        Ok(p)
    } else if eq_str(&a, "swapfile.remove") {
        let p =
            plan(
                pair(
                    mk_call("RemoveSwapfile", one_arg(arg_str(or_empty(&fields.path))), DbusReply::Ignore),
                    mk_call("Apply", no_args(), DbusReply::Ignore),
                ),
                Some("Swapfile removed"),
            )
        ;
        assert(plan_view(p) == spec_dbus_plan(action@, payload@, *fields)->Ok_0);
        Ok(p)
    } else if eq_str(&a, "swapfile.prepare") {
        let mkdir = fields.mkdir_parents == Some(true);
        let p =
            plan(
                single(
                    mk_call(
                        "PrepareSwapfileBtrfs",
                        two_args(arg_str(or_empty(&fields.path)), DbusArg::Bool(mkdir)),
                        DbusReply::PrintJson,
                    ),
                ),
                None,
            )
        ;
        assert(plan_view(p) == spec_dbus_plan(action@, payload@, *fields)->Ok_0);
        Ok(p)
    } else if eq_str(&a, "sysctl.set") {
        let p =
            plan(
                pair(
                    mk_call("SetSysctl", one_arg(arg_str(owned(payload))), DbusReply::Ignore),
                    mk_call("Apply", no_args(), DbusReply::Ignore),
                ),
                Some("Sysctl values applied"),
            )
        ;
        assert(plan_view(p) == spec_dbus_plan(action@, payload@, *fields)->Ok_0);
        Ok(p)
    } else if eq_str(&a, "zram.migrate") {
        let p = plan(single(mk_call("MigrateZram", no_args(), DbusReply::Ignore)), None);
        assert(plan_view(p) == spec_dbus_plan(action@, payload@, *fields)->Ok_0);
        Ok(p)
    } else if eq_str(&a, "swap.activate") {
        Err(owned("swap.activate not supported via D-Bus; use pkexec"))
    } else {
        let mut m = owned("unsupported D-Bus action: ");
        push_str(&mut m, action);
        Err(m)
    }
}

/// The actions whose D-Bus calls read fields of the JSON payload; the
/// others pass the payload through or ignore it.
pub open spec fn spec_reads_payload_fields(action: Seq<char>) -> bool {
    ||| action == "snapshot.restore"@
    ||| action == "snapshot.delete"@
    ||| action == "snapshot.prune"@
    ||| action == "snapshot.create"@
    ||| action == "swapfile.resize"@
    ||| action == "swapfile.remove"@
    ||| action == "swapfile.prepare"@
}

/// Whether the D-Bus calls of `action` read fields of its JSON payload, so
/// that the payload must parse as JSON.
pub fn reads_payload_fields(action: &str) -> (r: bool)
    ensures
        r == spec_reads_payload_fields(action@),
{
    let a = chars_of(action);
    eq_str(&a, "snapshot.restore") || eq_str(&a, "snapshot.delete") || eq_str(&a, "snapshot.prune") || eq_str(
        &a,
        "snapshot.create",
    ) || eq_str(&a, "swapfile.resize") || eq_str(&a, "swapfile.remove") || eq_str(&a, "swapfile.prepare")
}

/// An error text that means the daemon cannot be reached (so pkexec is
/// tried instead): its lowercase form mentions a missing daemon, owner,
/// service or name, a disconnect or a failed connection.
pub open spec fn spec_dbus_unavailable(message: Seq<char>) -> bool {
    let m = str_lowercase(message);
    contains_seq(m, "xzramd not running"@) || contains_seq(m, "name has no owner"@) || contains_seq(
        m,
        "service unknown"@,
    ) || contains_seq(m, "disconnected"@) || contains_seq(m, "failed to connect"@) || contains_seq(m, "no such name"@)
}

pub fn dbus_unavailable(message: &str) -> (r: bool)
    ensures
        r == spec_dbus_unavailable(message@),
{
    let lower = to_lowercase(message);
    let m = chars_of(lower.as_str());
    contains_str(&m, "xzramd not running") || contains_str(&m, "name has no owner") || contains_str(
        &m,
        "service unknown",
    ) || contains_str(&m, "disconnected") || contains_str(&m, "failed to connect") || contains_str(&m, "no such name")
}

/// Which helper pkexec runs: a development helper when allowed and named by
/// an absolute existing path (an error when named otherwise), else the
/// installed helper when it exists, else an error.
pub open spec fn spec_helper_path(
    allow_dev: bool,
    dev_helper: Option<Seq<char>>,
    dev_is_absolute_existing: bool,
    installed_exists: bool,
) -> Result<Seq<char>, Seq<char>> {
    if allow_dev && dev_helper is Some {
        if dev_is_absolute_existing {
            Ok(dev_helper->0)
        } else {
            Err("XZRAM_DEV_HELPER must be an absolute existing path"@)
        }
    } else if installed_exists {
        Ok(ANNOTATED_HELPER@)
    } else {
        Err(
            "xzram-helper not found at "@ + ANNOTATED_HELPER@
                + "; install the xzram package (or set XZRAM_ALLOW_DEV_HELPER=1 and XZRAM_DEV_HELPER for development)"@,
        )
    }
}

pub fn find_helper_for_pkexec(
    allow_dev: bool,
    dev_helper: Option<&str>,
    dev_is_absolute_existing: bool,
    installed_exists: bool,
) -> (r: Result<String, String>)
    ensures
        match spec_helper_path(
            allow_dev,
            match dev_helper {
                Some(d) => Some(d@),
                None => None,
            },
            dev_is_absolute_existing,
            installed_exists,
        ) {
            Ok(p) => r is Ok && r->Ok_0@ == p,
            Err(m) => r is Err && r->Err_0@ == m,
        },
{
    if allow_dev {
        if let Some(d) = dev_helper {
            if dev_is_absolute_existing {
                return Ok(owned(d));
            }
            return Err(owned("XZRAM_DEV_HELPER must be an absolute existing path"));
        }
    }
    if installed_exists {
        return Ok(owned(ANNOTATED_HELPER));
    }
    let mut m = owned("xzram-helper not found at ");
    push_str(&mut m, ANNOTATED_HELPER);
    push_str(
        &mut m,
        "; install the xzram package (or set XZRAM_ALLOW_DEV_HELPER=1 and XZRAM_DEV_HELPER for development)",
    );
    Err(m)
}

} // verus!
