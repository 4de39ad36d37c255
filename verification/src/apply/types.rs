//! Configuration records exchanged between staging, apply and the tools.
use vstd::prelude::*;

use crate::sysctl::SysctlValues;

verus! {

pub const PENDING_PATH: &'static str = "/var/lib/xzram/pending.json";
pub const SYSCTL_PATH: &'static str = "/etc/sysctl.d/99-xzram.conf";

/// One zram-generator device section.
#[derive(Debug, Clone)]
pub struct ZramConfig {
    pub device: String,
    pub zram_size: Option<String>,
    pub zram_resident_limit: Option<String>,
    pub compression_algorithm: Option<String>,
    pub swap_priority: Option<i32>,
    pub fs_type: Option<String>,
    pub mount_point: Option<String>,
}

#[derive(Debug, Clone)]
pub struct SwapfileConfig {
    pub path: String,
    pub size_mb: u64,
    pub priority: i32,
}

#[derive(Debug, Clone)]
pub struct SwapfileResizeConfig {
    pub path: String,
    pub size_mb: u64,
}

#[derive(Debug, Clone)]
pub struct ApplyRequest {
    pub zram: Option<ZramConfig>,
    pub swapfile: Option<SwapfileConfig>,
    pub disable_zram: bool,
    pub remove_swapfile: Option<String>,
}

/// Staged configuration merged into pending.json before `apply`.
#[derive(Debug, Clone)]
pub struct PendingConfig {
    pub zram: Option<ZramConfig>,
    pub disable_zram: bool,
    pub swapfile: Option<SwapfileConfig>,
    pub swapfile_resize: Option<SwapfileResizeConfig>,
    pub remove_swapfile: Option<String>,
    pub sysctl: Option<SysctlValues>,
}

#[derive(Debug, Clone)]
pub struct ApplyResult {
    pub success: bool,
    pub messages: Vec<String>,
}

// ---------------------------------------------------------------------------
// Mathematical views
// ---------------------------------------------------------------------------

pub struct ZramConfigView {
    pub device: Seq<char>,
    pub zram_size: Option<Seq<char>>,
    pub zram_resident_limit: Option<Seq<char>>,
    pub compression_algorithm: Option<Seq<char>>,
    pub swap_priority: Option<i32>,
    pub fs_type: Option<Seq<char>>,
    pub mount_point: Option<Seq<char>>,
}

pub struct SwapfileConfigView {
    pub path: Seq<char>,
    pub size_mb: u64,
    pub priority: i32,
}

pub struct SwapfileResizeView {
    pub path: Seq<char>,
    pub size_mb: u64,
}

pub struct PendingView {
    pub zram: Option<ZramConfigView>,
    pub disable_zram: bool,
    pub swapfile: Option<SwapfileConfigView>,
    pub swapfile_resize: Option<SwapfileResizeView>,
    pub remove_swapfile: Option<Seq<char>>,
    pub sysctl: Option<SysctlValues>,
}

pub open spec fn sv(o: Option<String>) -> Option<Seq<char>> {
    match o {
        Some(s) => Some(s@),
        None => None,
    }
}

impl View for ZramConfig {
    type V = ZramConfigView;

    open spec fn view(&self) -> ZramConfigView {
        ZramConfigView {
            device: self.device@,
            zram_size: sv(self.zram_size),
            zram_resident_limit: sv(self.zram_resident_limit),
            compression_algorithm: sv(self.compression_algorithm),
            swap_priority: self.swap_priority,
            fs_type: sv(self.fs_type),
            mount_point: sv(self.mount_point),
        }
    }
}

impl View for SwapfileConfig {
    type V = SwapfileConfigView;

    open spec fn view(&self) -> SwapfileConfigView {
        SwapfileConfigView { path: self.path@, size_mb: self.size_mb, priority: self.priority }
    }
}

impl View for SwapfileResizeConfig {
    type V = SwapfileResizeView;

    open spec fn view(&self) -> SwapfileResizeView {
        SwapfileResizeView { path: self.path@, size_mb: self.size_mb }
    }
}

pub open spec fn zv(o: Option<ZramConfig>) -> Option<ZramConfigView> {
    match o {
        Some(z) => Some(z@),
        None => None,
    }
}

pub open spec fn fv(o: Option<SwapfileConfig>) -> Option<SwapfileConfigView> {
    match o {
        Some(f) => Some(f@),
        None => None,
    }
}

pub open spec fn rv(o: Option<SwapfileResizeConfig>) -> Option<SwapfileResizeView> {
    match o {
        Some(r) => Some(r@),
        None => None,
    }
}

impl View for PendingConfig {
    type V = PendingView;

    open spec fn view(&self) -> PendingView {
        PendingView {
            zram: zv(self.zram),
            disable_zram: self.disable_zram,
            swapfile: fv(self.swapfile),
            swapfile_resize: rv(self.swapfile_resize),
            remove_swapfile: sv(self.remove_swapfile),
            sysctl: self.sysctl,
        }
    }
}

pub open spec fn empty_pending() -> PendingView {
    PendingView {
        zram: None,
        disable_zram: false,
        swapfile: None,
        swapfile_resize: None,
        remove_swapfile: None,
        sysctl: None,
    }
}

impl Default for PendingConfig {
    fn default() -> (p: Self)
        ensures
            p@ == empty_pending(),
    {
        PendingConfig {
            zram: None,
            disable_zram: false,
            swapfile: None,
            swapfile_resize: None,
            remove_swapfile: None,
            sysctl: None,
        }
    }
}

// ---------------------------------------------------------------------------
// Copies whose contents Verus can follow
// ---------------------------------------------------------------------------

pub fn copy_string(s: &String) -> (r: String)
    ensures
        r == *s,
        r@ == s@,
{
    s.clone()
}

pub fn copy_opt_string(o: &Option<String>) -> (r: Option<String>)
    ensures
        r == *o,
        sv(r) == sv(*o),
{
    match o {
        Some(s) => Some(s.clone()),
        None => None,
    }
}

impl ZramConfig {
    pub fn duplicate(&self) -> (r: ZramConfig)
        ensures
            r == *self,
            r@ == self@,
    {
        ZramConfig {
            device: copy_string(&self.device),
            zram_size: copy_opt_string(&self.zram_size),
            zram_resident_limit: copy_opt_string(&self.zram_resident_limit),
            compression_algorithm: copy_opt_string(&self.compression_algorithm),
            swap_priority: self.swap_priority,
            fs_type: copy_opt_string(&self.fs_type),
            mount_point: copy_opt_string(&self.mount_point),
        }
    }
}

impl SwapfileConfig {
    pub fn duplicate(&self) -> (r: SwapfileConfig)
        ensures
            r == *self,
            r@ == self@,
    {
        SwapfileConfig { path: copy_string(&self.path), size_mb: self.size_mb, priority: self.priority }
    }
}

impl SwapfileResizeConfig {
    pub fn duplicate(&self) -> (r: SwapfileResizeConfig)
        ensures
            r == *self,
            r@ == self@,
    {
        SwapfileResizeConfig { path: copy_string(&self.path), size_mb: self.size_mb }
    }
}

pub fn copy_opt_zram(o: &Option<ZramConfig>) -> (r: Option<ZramConfig>)
    ensures
        r == *o,
        zv(r) == zv(*o),
{
    match o {
        Some(z) => Some(z.duplicate()),
        None => None,
    }
}

pub fn copy_opt_swapfile(o: &Option<SwapfileConfig>) -> (r: Option<SwapfileConfig>)
    ensures
        r == *o,
        fv(r) == fv(*o),
{
    match o {
        Some(f) => Some(f.duplicate()),
        None => None,
    }
}

pub fn copy_opt_resize(o: &Option<SwapfileResizeConfig>) -> (r: Option<SwapfileResizeConfig>)
    ensures
        r == *o,
        rv(r) == rv(*o),
{
    match o {
        Some(f) => Some(f.duplicate()),
        None => None,
    }
}

impl PendingConfig {
    pub fn duplicate(&self) -> (r: PendingConfig)
        ensures
            r == *self,
            r@ == self@,
    {
        PendingConfig {
            zram: copy_opt_zram(&self.zram),
            disable_zram: self.disable_zram,
            swapfile: copy_opt_swapfile(&self.swapfile),
            swapfile_resize: copy_opt_resize(&self.swapfile_resize),
            remove_swapfile: copy_opt_string(&self.remove_swapfile),
            sysctl: self.sysctl,
        }
    }
}

} // verus!
