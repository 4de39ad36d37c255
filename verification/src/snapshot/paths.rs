//! Where snapshots and the managed `/etc` files live.
use vstd::prelude::*;

use crate::apply::pending::{join, join_path};

verus! {

pub const ZRAM_CONF: &'static str = "systemd/zram-generator.conf";
pub const FSTAB: &'static str = "fstab";
pub const SYSCTL_FILE: &'static str = "sysctl.d/99-xzram.conf";
pub const ZRAMSWAP_FILE: &'static str = "default/zramswap";

/// The snapshot store under the data directory.
pub fn snapshots_root(data_dir: &str) -> (p: String)
    ensures
        p@ == join_path(data_dir@, "snapshots"@),
{
    join(data_dir, "snapshots")
}

/// The snapshot index under the data directory.
pub fn index_path(data_dir: &str) -> (p: String)
    ensures
        p@ == join_path(join_path(data_dir@, "snapshots"@), "index.json"@),
{
    let root = snapshots_root(data_dir);
    join(root.as_str(), "index.json")
}

/// A managed file under the `/etc` root.
pub fn etc_path(etc_root: &str, relative: &str) -> (p: String)
    ensures
        p@ == join_path(etc_root@, relative@),
{
    join(etc_root, relative)
}

/// The managed files, relative to `/etc`, with their names in a snapshot.
pub open spec fn managed_files() -> Seq<(Seq<char>, Seq<char>)> {
    seq![
        (ZRAM_CONF@, "zram-generator.conf"@),
        (FSTAB@, "fstab"@),
        (SYSCTL_FILE@, "99-xzram.conf"@),
        (ZRAMSWAP_FILE@, "zramswap"@),
    ]
}

pub fn managed_etc_files() -> (r: Vec<(&'static str, &'static str)>)
    ensures
        r@.len() == 4,
        forall|i: int| 0 <= i < 4 ==> (r@[i].0@, r@[i].1@) == #[trigger] managed_files()[i],
{
    let r = vec![
        (ZRAM_CONF, "zram-generator.conf"),
        (FSTAB, "fstab"),
        (SYSCTL_FILE, "99-xzram.conf"),
        (ZRAMSWAP_FILE, "zramswap"),
    ];
    assert(r@.len() == 4);
    r
}

} // verus!
