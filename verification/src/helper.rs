//! The privileged helper's actions: which action a request names and the
//! decisions the helper takes before it acts.
use vstd::prelude::*;

use crate::error::XzramError;
use crate::text::{chars_of, eq_str, owned, push_str};

verus! {

/// An action of the privileged helper.
#[derive(Debug, Clone, Copy, PartialEq, Eq, Structural)]
pub enum HelperAction {
    Stage,
    PendingClear,
    ZramConfigure,
    ZramDisable,
    SwapfileCreate,
    SwapfileResize,
    SwapfileRemove,
    SwapfilePrepare,
    SwapActivate,
    SysctlSet,
    ZramMigrate,
    Apply,
    Rollback,
    SnapshotCreate,
    SnapshotRestore,
    SnapshotDelete,
    SnapshotPrune,
    SnapshotList,
    DaemonStart,
}

pub open spec fn helper_action_name(a: HelperAction) -> Seq<char> {
    match a {
        HelperAction::Stage => "stage"@,
        HelperAction::PendingClear => "pending.clear"@,
        HelperAction::ZramConfigure => "zram.configure"@,
        HelperAction::ZramDisable => "zram.disable"@,
        HelperAction::SwapfileCreate => "swapfile.create"@,
        HelperAction::SwapfileResize => "swapfile.resize"@,
        HelperAction::SwapfileRemove => "swapfile.remove"@,
        HelperAction::SwapfilePrepare => "swapfile.prepare"@,
        HelperAction::SwapActivate => "swap.activate"@,
        HelperAction::SysctlSet => "sysctl.set"@,
        HelperAction::ZramMigrate => "zram.migrate"@,
        HelperAction::Apply => "apply"@,
        HelperAction::Rollback => "rollback"@,
        HelperAction::SnapshotCreate => "snapshot.create"@,
        HelperAction::SnapshotRestore => "snapshot.restore"@,
        HelperAction::SnapshotDelete => "snapshot.delete"@,
        HelperAction::SnapshotPrune => "snapshot.prune"@,
        HelperAction::SnapshotList => "snapshot.list"@,
        HelperAction::DaemonStart => "daemon.start"@,
    }
}

impl HelperAction {
    /// The name under which a request asks for the action.
    pub fn name(self) -> (s: &'static str)
        ensures
            s@ == helper_action_name(self),
    {
        match self {
            HelperAction::Stage => "stage",
            HelperAction::PendingClear => "pending.clear",
            HelperAction::ZramConfigure => "zram.configure",
            HelperAction::ZramDisable => "zram.disable",
            HelperAction::SwapfileCreate => "swapfile.create",
            HelperAction::SwapfileResize => "swapfile.resize",
            HelperAction::SwapfileRemove => "swapfile.remove",
            HelperAction::SwapfilePrepare => "swapfile.prepare",
            HelperAction::SwapActivate => "swap.activate",
            HelperAction::SysctlSet => "sysctl.set",
            HelperAction::ZramMigrate => "zram.migrate",
            HelperAction::Apply => "apply",
            HelperAction::Rollback => "rollback",
            HelperAction::SnapshotCreate => "snapshot.create",
            HelperAction::SnapshotRestore => "snapshot.restore",
            HelperAction::SnapshotDelete => "snapshot.delete",
            HelperAction::SnapshotPrune => "snapshot.prune",
            HelperAction::SnapshotList => "snapshot.list",
            HelperAction::DaemonStart => "daemon.start",
        }
    }
}

/// Tells an action's name from the other names by its length and a few of
/// its characters.
pub open spec fn name_key(s: Seq<char>) -> Option<HelperAction> {
    if s.len() == 5 {
        Some(if s[0] == 's' { HelperAction::Stage } else { HelperAction::Apply })
    } else if s.len() == 8 {
        Some(HelperAction::Rollback)
    } else if s.len() == 10 {
        Some(HelperAction::SysctlSet)
    } else if s.len() == 12 {
        Some(
            if s[0] == 'd' {
                HelperAction::DaemonStart
            } else if s[5] == 'd' {
                HelperAction::ZramDisable
            } else {
                HelperAction::ZramMigrate
            },
        )
    } else if s.len() == 13 {
        Some(
            if s[0] == 'p' {
                HelperAction::PendingClear
            } else if s[1] == 'w' {
                HelperAction::SwapActivate
            } else {
                HelperAction::SnapshotList
            },
        )
    } else if s.len() == 14 {
        Some(if s[0] == 'z' { HelperAction::ZramConfigure } else { HelperAction::SnapshotPrune })
    } else if s.len() == 15 {
        Some(
            if s[1] == 'w' {
                if s[9] == 'c' {
                    HelperAction::SwapfileCreate
                } else if s[11] == 's' {
                    HelperAction::SwapfileResize
                } else {
                    HelperAction::SwapfileRemove
                }
            } else if s[9] == 'c' {
                HelperAction::SnapshotCreate
            } else {
                HelperAction::SnapshotDelete
            },
        )
    } else if s.len() == 16 {
        Some(if s[1] == 'w' { HelperAction::SwapfilePrepare } else { HelperAction::SnapshotRestore })
    } else {
        None
    }
}

proof fn lemma_name_key(a: HelperAction)
    ensures
        name_key(helper_action_name(a)) == Some(a),
{
    match a {
        HelperAction::Stage => reveal_strlit("stage"),
        HelperAction::PendingClear => reveal_strlit("pending.clear"),
        HelperAction::ZramConfigure => reveal_strlit("zram.configure"),
        HelperAction::ZramDisable => reveal_strlit("zram.disable"),
        HelperAction::SwapfileCreate => reveal_strlit("swapfile.create"),
        HelperAction::SwapfileResize => reveal_strlit("swapfile.resize"),
        HelperAction::SwapfileRemove => reveal_strlit("swapfile.remove"),
        HelperAction::SwapfilePrepare => reveal_strlit("swapfile.prepare"),
        HelperAction::SwapActivate => reveal_strlit("swap.activate"),
        HelperAction::SysctlSet => reveal_strlit("sysctl.set"),
        HelperAction::ZramMigrate => reveal_strlit("zram.migrate"),
        HelperAction::Apply => reveal_strlit("apply"),
        HelperAction::Rollback => reveal_strlit("rollback"),
        HelperAction::SnapshotCreate => reveal_strlit("snapshot.create"),
        HelperAction::SnapshotRestore => reveal_strlit("snapshot.restore"),
        HelperAction::SnapshotDelete => reveal_strlit("snapshot.delete"),
        HelperAction::SnapshotPrune => reveal_strlit("snapshot.prune"),
        HelperAction::SnapshotList => reveal_strlit("snapshot.list"),
        HelperAction::DaemonStart => reveal_strlit("daemon.start"),
    }
}

/// No two actions share a name.
pub proof fn lemma_helper_action_names_distinct(a: HelperAction, b: HelperAction)
    requires
        helper_action_name(a) == helper_action_name(b),
    ensures
        a == b,
{
    lemma_name_key(a);
    lemma_name_key(b);
}

/// The action named `s`, if any.
pub open spec fn spec_helper_action(s: Seq<char>) -> Option<HelperAction> {
    if exists|a: HelperAction| helper_action_name(a) == s {
        Some(choose|a: HelperAction| helper_action_name(a) == s)
    } else {
        None
    }
}

/// Every action, each once.
fn helper_actions() -> (v: Vec<HelperAction>)
    ensures
        forall|a: HelperAction| v@.contains(a),
{
    let v = vec![
        HelperAction::Stage,
        HelperAction::PendingClear,
        HelperAction::ZramConfigure,
        HelperAction::ZramDisable,
        HelperAction::SwapfileCreate,
        HelperAction::SwapfileResize,
        HelperAction::SwapfileRemove,
        HelperAction::SwapfilePrepare,
        HelperAction::SwapActivate,
        HelperAction::SysctlSet,
        HelperAction::ZramMigrate,
        HelperAction::Apply,
        HelperAction::Rollback,
        HelperAction::SnapshotCreate,
        HelperAction::SnapshotRestore,
        HelperAction::SnapshotDelete,
        HelperAction::SnapshotPrune,
        HelperAction::SnapshotList,
        HelperAction::DaemonStart,
    ];
    assert forall|a: HelperAction| v@.contains(a) by {
        let k: int = match a {
            HelperAction::Stage => 0,
            HelperAction::PendingClear => 1,
            HelperAction::ZramConfigure => 2,
            HelperAction::ZramDisable => 3,
            HelperAction::SwapfileCreate => 4,
            HelperAction::SwapfileResize => 5,
            HelperAction::SwapfileRemove => 6,
            HelperAction::SwapfilePrepare => 7,
            HelperAction::SwapActivate => 8,
            HelperAction::SysctlSet => 9,
            HelperAction::ZramMigrate => 10,
            HelperAction::Apply => 11,
            HelperAction::Rollback => 12,
            HelperAction::SnapshotCreate => 13,
            HelperAction::SnapshotRestore => 14,
            HelperAction::SnapshotDelete => 15,
            HelperAction::SnapshotPrune => 16,
            HelperAction::SnapshotList => 17,
            HelperAction::DaemonStart => 18,
        };
        assert(v@[k] == a);
    }
    v
}

/// The action a helper request names, or a validation error naming the
/// unknown action.
pub fn parse_helper_action(action: &str) -> (r: Result<HelperAction, XzramError>)
    ensures
        match spec_helper_action(action@) {
            Some(a) => r == Ok::<HelperAction, XzramError>(a),
            None => r is Err && r->Err_0 is Validation && r->Err_0->Validation_0@ == "unknown action: "@ + action@,
        },
{
    let c = chars_of(action);
    let all = helper_actions();
    let mut i: usize = 0;
    while i < all.len()
        invariant
            i <= all.len(),
            c@ == action@,
            forall|a: HelperAction| all@.contains(a),
            forall|j: int| 0 <= j < i ==> helper_action_name(#[trigger] all@[j]) != action@,
        decreases all.len() - i,
    {
        let a = all[i];
        if eq_str(&c, a.name()) {
            proof {
                let b = choose|b: HelperAction| helper_action_name(b) == action@;
                lemma_helper_action_names_distinct(a, b);
            }
            return Ok(a);
        }
        i = i + 1;
    }
    proof {
        assert forall|a: HelperAction| helper_action_name(a) != action@ by {
            assert(all@.contains(a));
            let j = choose|j: int| 0 <= j < all@.len() && all@[j] == a;
            assert(helper_action_name(all@[j]) != action@);
        }
    }
    let mut m = owned("unknown action: ");
    push_str(&mut m, action);
    Err(XzramError::Validation(m))
}

/// The command that a swap activation request runs: `swapon` for `on`,
/// `swapoff` for `off`.
pub fn swap_program(action: &str) -> (r: Result<&'static str, XzramError>)
    ensures
        action@ == "on"@ ==> r is Ok && r->Ok_0@ == "swapon"@,
        action@ == "off"@ ==> r is Ok && r->Ok_0@ == "swapoff"@,
        action@ != "on"@ && action@ != "off"@ ==> r is Err && r->Err_0 is Validation && r->Err_0->Validation_0@
            == "unknown swap action"@,
{
    proof {
        reveal_strlit("on");
        reveal_strlit("off");
        assert("on"@ != "off"@) by {
            assert("on"@.len() != "off"@.len());
        }
    }
    let c = chars_of(action);
    if eq_str(&c, "on") {
        Ok("swapon")
    } else if eq_str(&c, "off") {
        Ok("swapoff")
    } else {
        Err(XzramError::Validation(owned("unknown swap action")))
    }
}

/// An `apply` request with the empty JSON object applies what is pending;
/// any other payload is an explicit request.
pub fn apply_uses_pending(payload: &str) -> (r: bool)
    ensures
        r == (payload@ == "{}"@),
{
    eq_str(&chars_of(payload), "{}")
}

/// Every action's name parses back to that action.
pub proof fn lemma_helper_action_roundtrip(a: HelperAction)
    ensures
        spec_helper_action(helper_action_name(a)) == Some(a),
{
    let b = choose|b: HelperAction| helper_action_name(b) == helper_action_name(a);
    lemma_helper_action_names_distinct(a, b);
}

} // verus!
