//! Btrfs swapfiles need nodatacow (`chattr +C`) on the file and its parent
//! directory; this module decides readiness from what the tools report.
use vstd::prelude::*;

use crate::error::XzramError;
use crate::num::{nat_str, push_nat};
use crate::text::{chars_of, eq_str, has_char, has_char_of, lines, lines_of, owned, push_str, split_ws, split_ws_of, views};

verus! {

/// What `std::path::Path::parent` returns for the path `p`, as text.
pub uninterp spec fn path_parent(p: Seq<char>) -> Option<Seq<char>>;

/// `Path::parent`: the path without its last component, `None` for a root
/// or empty path. The contract names the result and states nothing more of
/// it: std's component rules are not restated.
#[verifier::external_body]
fn parent_of(path: &str) -> (r: Option<String>)
    ensures
        match r {
            Some(s) => path_parent(path@) == Some(s@),
            None => path_parent(path@) is None,
        },
{
    match std::path::Path::new(path).parent() {
        Some(p) => Some(p.to_string_lossy().into_owned()),
        None => None,
    }
}

#[derive(Debug, Clone, PartialEq, Eq)]
pub struct NodatacowStatus {
    pub swapfile_path: String,
    pub parent_directory: String,
    pub filesystem: String,
    pub on_btrfs: bool,
    pub parent_exists: bool,
    pub parent_nodatacow: bool,
    pub file_exists: bool,
    pub file_nodatacow: Option<bool>,
    pub ready: bool,
    pub message: String,
}

/// What the host reports about a swapfile path: existence of the parent
/// directory and the file, `findmnt`'s filesystem type for the parent, and
/// `lsattr`'s nodatacow verdicts (`None` when not asked or when it failed).
#[derive(Debug)]
pub struct NodatacowProbe {
    pub parent_exists: bool,
    pub file_exists: bool,
    pub filesystem: Result<String, XzramError>,
    pub parent_nodatacow: Option<bool>,
    pub file_nodatacow: Option<bool>,
}

/// The parent directory of a swapfile path: it must exist and be non-empty.
pub open spec fn spec_parent_directory(path: Seq<char>) -> Option<Seq<char>> {
    match path_parent(path) {
        Some(p) => if p.len() > 0 {
            Some(p)
        } else {
            None
        },
        None => None,
    }
}

pub fn parent_directory(path: &str) -> (r: Result<String, XzramError>)
    ensures
        match spec_parent_directory(path@) {
            Some(p) => r is Ok && r->Ok_0@ == p,
            None => r is Err && r->Err_0 is Validation && r->Err_0->Validation_0@ == "invalid swapfile path"@,
        },
{
    match parent_of(path) {
        Some(p) => {
            if chars_of(p.as_str()).len() > 0 {
                Ok(p)
            } else {
                Err(XzramError::Validation(owned("invalid swapfile path")))
            }
        },
        None => Err(XzramError::Validation(owned("invalid swapfile path"))),
    }
}

/// The first whitespace-separated field of the first line of `lsattr -d`
/// output holds the attribute `C`.
pub open spec fn spec_lsattr_nodatacow(output: Seq<char>) -> bool {
    let ls = lines(output);
    ls.len() > 0 && split_ws(ls[0]).len() > 0 && has_char(split_ws(ls[0])[0], 'C')
}

pub fn lsattr_has_nodatacow(output: &str) -> (r: bool)
    ensures
        r == spec_lsattr_nodatacow(output@),
{
    let c = chars_of(output);
    let ls = lines_of(&c);
    if ls.len() == 0 {
        return false;
    }
    let fields = split_ws_of(&ls[0]);
    if fields.len() == 0 {
        return false;
    }
    has_char_of(&fields[0], 'C')
}

pub open spec fn spec_status_message(
    on_btrfs: bool,
    parent_exists: bool,
    parent_nodatacow: bool,
    file_exists: bool,
    file_nodatacow: Option<bool>,
    parent_directory: Seq<char>,
) -> Seq<char> {
    if !on_btrfs {
        "Filesystem does not require btrfs nodatacow"@
    } else if !parent_exists {
        "Parent directory "@ + parent_directory + " does not exist; create it and run prepare"@
    } else if !parent_nodatacow {
        "Parent directory "@ + parent_directory + " is missing nodatacow (chattr +C)"@
    } else if file_exists && file_nodatacow == Some(false) {
        "Swap file exists but is not nodatacow; run prepare or recreate the file"@
    } else if file_exists {
        "Swap file and parent directory are nodatacow-ready"@
    } else {
        "Parent directory is nodatacow-ready for a new swap file"@
    }
}

/// The human-readable verdict on a swapfile location.
pub fn status_message(
    on_btrfs: bool,
    parent_exists: bool,
    parent_nodatacow: bool,
    file_exists: bool,
    file_nodatacow: Option<bool>,
    parent_directory: &str,
) -> (m: String)
    ensures
        m@ == spec_status_message(on_btrfs, parent_exists, parent_nodatacow, file_exists, file_nodatacow, parent_directory@),
{
    if !on_btrfs {
        return owned("Filesystem does not require btrfs nodatacow");
    }
    if !parent_exists {
        let mut m = owned("Parent directory ");
        push_str(&mut m, parent_directory);
        push_str(&mut m, " does not exist; create it and run prepare");
        return m;
    }
    if !parent_nodatacow {
        let mut m = owned("Parent directory ");
        push_str(&mut m, parent_directory);
        push_str(&mut m, " is missing nodatacow (chattr +C)");
        return m;
    }
    if file_exists && file_nodatacow == Some(false) {
        return owned("Swap file exists but is not nodatacow; run prepare or recreate the file");
    }
    if file_exists {
        return owned("Swap file and parent directory are nodatacow-ready");
    }
    owned("Parent directory is nodatacow-ready for a new swap file")
}

/// A swapfile location is ready when it is not on btrfs, or when the parent
/// exists with nodatacow and an existing file has nodatacow too.
pub open spec fn spec_ready(
    on_btrfs: bool,
    parent_exists: bool,
    parent_nodatacow: bool,
    file_exists: bool,
    file_nodatacow: Option<bool>,
) -> bool {
    if !on_btrfs {
        true
    } else if !parent_exists {
        false
    } else if !parent_nodatacow {
        false
    } else if file_exists {
        file_nodatacow == Some(true)
    } else {
        true
    }
}

/// The filesystem type used: `findmnt`'s answer, or `unknown` when the
/// parent is missing and `findmnt` failed.
pub open spec fn probe_filesystem(probe: NodatacowProbe) -> Option<Seq<char>> {
    match probe.filesystem {
        Ok(f) => Some(f@),
        Err(_) => if probe.parent_exists {
            None
        } else {
            Some("unknown"@)
        },
    }
}

/// The status record for a swapfile path, from the probe: `None` when the
/// path has no parent directory or the filesystem of an existing parent is
/// unknown.
pub open spec fn status_ok(s: NodatacowStatus, path: Seq<char>, probe: NodatacowProbe) -> bool {
    let parent = spec_parent_directory(path)->0;
    let fs = probe_filesystem(probe)->0;
    let on_btrfs = fs == "btrfs"@;
    let parent_nodatacow = if probe.parent_exists && on_btrfs {
        probe.parent_nodatacow == Some(true)
    } else {
        !on_btrfs
    };
    let file_nodatacow = if probe.file_exists && on_btrfs {
        Some(probe.file_nodatacow == Some(true))
    } else {
        None
    };
    &&& s.swapfile_path@ == path
    &&& s.parent_directory@ == parent
    &&& s.filesystem@ == fs
    &&& s.on_btrfs == on_btrfs
    &&& s.parent_exists == probe.parent_exists
    &&& s.parent_nodatacow == parent_nodatacow
    &&& s.file_exists == probe.file_exists
    &&& s.file_nodatacow == file_nodatacow
    &&& s.ready == spec_ready(on_btrfs, probe.parent_exists, parent_nodatacow, probe.file_exists, file_nodatacow)
    &&& s.message@ == spec_status_message(
        on_btrfs,
        probe.parent_exists,
        parent_nodatacow,
        probe.file_exists,
        file_nodatacow,
        parent,
    )
}

/// The nodatacow status of a swapfile path from what the host reported.
/// Fails when the path has no parent directory (validation error) or when
/// `findmnt` failed on an existing parent (its error).
pub fn check_nodatacow(path: &str, probe: NodatacowProbe) -> (r: Result<NodatacowStatus, XzramError>)
    ensures
        spec_parent_directory(path@) is None ==> r is Err && r->Err_0 is Validation,
        spec_parent_directory(path@) is Some && probe_filesystem(probe) is None ==> r is Err && r->Err_0
            == probe.filesystem->Err_0,
        r is Ok <==> (spec_parent_directory(path@) is Some && probe_filesystem(probe) is Some),
        r matches Ok(s) ==> status_ok(s, path@, probe),
{
    let parent = parent_directory(path)?;
    let ghost pv = probe;
    let NodatacowProbe { parent_exists, file_exists, filesystem, parent_nodatacow: pn, file_nodatacow: fnc } = probe;
    let fstype = match filesystem {
        Ok(f) => f,
        Err(e) => {
            if parent_exists {
                return Err(e);
            }
            owned("unknown")
        },
    };
    let on_btrfs = eq_str(&chars_of(fstype.as_str()), "btrfs");
    let parent_nodatacow = if parent_exists && on_btrfs {
        pn == Some(true)
    } else {
        !on_btrfs
    };
    let file_nodatacow = if file_exists && on_btrfs {
        Some(fnc == Some(true))
    } else {
        None
    };
    let ready = if !on_btrfs {
        true
    } else if !parent_exists {
        false
    } else if !parent_nodatacow {
        false
    } else if file_exists {
        file_nodatacow == Some(true)
    } else {
        true
    };
    let message = status_message(on_btrfs, parent_exists, parent_nodatacow, file_exists, file_nodatacow, parent.as_str());
    Ok(
        NodatacowStatus {
            swapfile_path: owned(path),
            parent_directory: parent,
            filesystem: fstype,
            on_btrfs,
            parent_exists,
            parent_nodatacow,
            file_exists,
            file_nodatacow,
            ready,
            message,
        },
    )
}

/// The path is ready for a swapfile, or a validation error with the status
/// message and the prepare command to run.
pub fn ensure_ready_for_swapfile(status: &NodatacowStatus) -> (r: Result<(), XzramError>)
    ensures
        r is Ok <==> status.ready,
        r matches Err(e) ==> e is Validation && e->Validation_0@ == status.message@
            + ". Run: xzram swapfile prepare "@ + status.swapfile_path@,
{
    if status.ready {
        return Ok(());
    }
    let mut m = String::new();
    push_str(&mut m, status.message.as_str());
    push_str(&mut m, ". Run: xzram swapfile prepare ");
    push_str(&mut m, status.swapfile_path.as_str());
    Err(XzramError::Validation(m))
}

/// The filesystem type `findmnt` reported is btrfs.
pub fn is_btrfs_path(filesystem: Option<&str>) -> (r: bool)
    ensures
        r == (filesystem matches Some(f) && f@ == "btrfs"@),
{
    match filesystem {
        Some(f) => eq_str(&chars_of(f), "btrfs"),
        None => false,
    }
}

/// Which `chattr +C` calls preparing a btrfs location needs: on the parent
/// when it exists without nodatacow, and on the file likewise.
pub fn prepare_actions(
    on_btrfs: bool,
    parent_exists: bool,
    parent_nodatacow: bool,
    file_exists: bool,
    file_nodatacow: bool,
) -> (r: (bool, bool))
    ensures
        r.0 == (on_btrfs && parent_exists && !parent_nodatacow),
        r.1 == (on_btrfs && file_exists && !file_nodatacow),
{
    (on_btrfs && parent_exists && !parent_nodatacow, on_btrfs && file_exists && !file_nodatacow)
}

/// The size argument of `btrfs filesystem mkswapfile`, e.g. `2048M`.
pub fn mkswapfile_size_arg(size_mb: u64) -> (s: String)
    ensures
        s@ == nat_str(size_mb as nat) + "M"@,
{
    let mut s = String::new();
    push_nat(&mut s, size_mb);
    push_str(&mut s, "M");
    assert(s@ =~= nat_str(size_mb as nat) + "M"@);
    s
}

/// One host step of allocating and formatting a swapfile.
#[derive(Debug, Clone)]
pub enum AllocationStep {
    /// `swapoff` of the path (its failure ignored), then removal of the file.
    RemoveStale(String),
    /// `btrfs filesystem mkswapfile --size <size> <path>`.
    BtrfsMkswapfile { path: String, size: String },
    /// `fallocate -l <bytes> <path>`, or, when that fails, `dd` of `mib`
    /// blocks of 1 MiB from /dev/zero.
    Allocate { path: String, bytes: u64, mib: u64 },
    /// `mkswap <path>`.
    Mkswap(String),
}

pub enum AllocationView {
    RemoveStale(Seq<char>),
    BtrfsMkswapfile(Seq<char>, Seq<char>),
    Allocate(Seq<char>, u64, u64),
    Mkswap(Seq<char>),
}

pub open spec fn allocation_view(s: AllocationStep) -> AllocationView {
    match s {
        AllocationStep::RemoveStale(p) => AllocationView::RemoveStale(p@),
        AllocationStep::BtrfsMkswapfile { path, size } => AllocationView::BtrfsMkswapfile(path@, size@),
        AllocationStep::Allocate { path, bytes, mib } => AllocationView::Allocate(path@, bytes, mib),
        AllocationStep::Mkswap(p) => AllocationView::Mkswap(p@),
    }
}

/// The steps that allocate a swapfile at `path`: an existing file is removed
/// first; on btrfs, when `btrfs filesystem mkswapfile` is available, it
/// creates the file; otherwise the file is allocated and then formatted.
pub open spec fn spec_allocation(path: Seq<char>, size_mb: u64, file_exists: bool, use_btrfs: bool) -> Seq<
    AllocationView,
> {
    let stale = if file_exists {
        seq![AllocationView::RemoveStale(path)]
    } else {
        Seq::empty()
    };
    if use_btrfs {
        stale.push(AllocationView::BtrfsMkswapfile(path, nat_str(size_mb as nat) + "M"@))
    } else {
        stale + seq![AllocationView::Allocate(path, (size_mb * 1048576) as u64, size_mb), AllocationView::Mkswap(path)]
    }
}

/// A swapfile is allocated only with a size above 0 MiB; this is checked
/// before its location is prepared.
pub fn check_allocation_size(size_mb: u64) -> (r: Result<(), XzramError>)
    ensures
        r is Ok <==> size_mb != 0,
        r matches Err(e) ==> e is Validation && e->Validation_0@ == "swapfile size must be greater than 0 MiB"@,
{
    if size_mb == 0 {
        return Err(XzramError::Validation(owned("swapfile size must be greater than 0 MiB")));
    }
    Ok(())
}

/// How a swapfile is created once its location was prepared: `status` is
/// the nodatacow status of `path` after preparing, `file_exists` whether the
/// path exists now, `path_filesystem` what `findmnt` reports for the path,
/// and `mkswapfile_available` whether `btrfs filesystem mkswapfile` runs.
/// A size of 0 and a location that is not ready are refused.
pub fn create_allocated_swapfile(
    path: &str,
    size_mb: u64,
    status: &NodatacowStatus,
    file_exists: bool,
    path_filesystem: Option<&str>,
    mkswapfile_available: bool,
) -> (r: Result<Vec<AllocationStep>, XzramError>)
    requires
        size_mb * 1048576 <= u64::MAX || (path_filesystem matches Some(f) && f@ == "btrfs"@ && mkswapfile_available),
    ensures
        size_mb == 0 ==> r is Err && r->Err_0 is Validation && r->Err_0->Validation_0@
            == "swapfile size must be greater than 0 MiB"@,
        size_mb != 0 && !status.ready ==> r is Err && r->Err_0 is Validation && r->Err_0->Validation_0@
            == status.message@ + ". Run: xzram swapfile prepare "@ + status.swapfile_path@,
        r is Ok <==> size_mb != 0 && status.ready,
        r matches Ok(steps) ==> steps@.map_values(|s: AllocationStep| allocation_view(s)) == spec_allocation(
            path@,
            size_mb,
            file_exists,
            (path_filesystem matches Some(f) && f@ == "btrfs"@) && mkswapfile_available,
        ),
{
    check_allocation_size(size_mb)?;
    ensure_ready_for_swapfile(status)?;
    let mut steps: Vec<AllocationStep> = Vec::new();
    if file_exists {
        steps.push(AllocationStep::RemoveStale(owned(path)));
    }
    let use_btrfs = is_btrfs_path(path_filesystem) && mkswapfile_available;
    if use_btrfs {
        steps.push(AllocationStep::BtrfsMkswapfile { path: owned(path), size: mkswapfile_size_arg(size_mb) });
    } else {
        let bytes = size_mb * 1024 * 1024;
        steps.push(AllocationStep::Allocate { path: owned(path), bytes, mib: size_mb });
        steps.push(AllocationStep::Mkswap(owned(path)));
    }
    assert(steps@.map_values(|s: AllocationStep| allocation_view(s)) =~= spec_allocation(
        path@,
        size_mb,
        file_exists,
        use_btrfs,
    ));
    Ok(steps)
}

} // verus!
