//! Swap backends: zram-generator configs and fstab swapfiles.
use vstd::prelude::*;

use crate::apply::types::{SwapfileConfig, ZramConfig};
use crate::detect::ZramBackend;
use crate::error::{Result, XzramError};
use crate::text::owned;

pub mod swapfile;
pub mod zram_generator;

verus! {

/// A swap backend of the host.
pub trait SwapBackend {
    fn name(&self) -> &'static str;

    fn is_available(&self) -> bool;
}

/// The backend that manages zram devices.
pub trait ZramBackendTrait: SwapBackend {
    fn show(&self) -> Result<Option<ZramConfig>>;

    fn configure(&self, config: &ZramConfig) -> Result<()>;

    fn disable(&self) -> Result<()>;

    fn apply(&self) -> Result<()>;
}

/// The backend that manages swapfiles.
pub trait SwapfileBackendTrait: SwapBackend {
    fn list(&self) -> Result<Vec<SwapfileConfig>>;

    fn create(&self, config: &SwapfileConfig) -> Result<()>;

    fn remove(&self, path: &str) -> Result<()>;

    fn resize(&self, path: &str, size_mb: u64) -> Result<()>;
}

/// The backend that manages zram for a detected setup: every setup,
/// zram-tools included, is managed through systemd-zram-generator.
pub fn available_zram_backend(detected: ZramBackend) -> (name: &'static str)
    ensures
        name@ == zram_generator::BACKEND_NAME@,
{
    match detected {
        ZramBackend::SystemdZramGenerator | ZramBackend::Absent | ZramBackend::Manual => zram_generator::BACKEND_NAME,
        ZramBackend::ZramTools => zram_generator::BACKEND_NAME,
    }
}

/// The name of the swapfile backend.
pub fn available_swapfile_backend() -> (name: &'static str)
    ensures
        name@ == "swapfile"@,
{
    "swapfile"
}

pub open spec fn spec_backend_warning(detected: ZramBackend) -> Option<Seq<char>> {
    match detected {
        ZramBackend::ZramTools => Some(
            "Legacy zram-tools detected; consider 'xzram zram migrate' to move to zram-generator"@,
        ),
        ZramBackend::Manual => Some("Manual zram configuration detected; xzram will manage via systemd-zram-generator"@),
        _ => None,
    }
}

/// A warning about the detected zram setup, when it is not zram-generator's.
pub fn zram_backend_warning(detected: ZramBackend) -> (r: Option<String>)
    ensures
        crate::apply::types::sv(r) == spec_backend_warning(detected),
{
    match detected {
        ZramBackend::ZramTools => Some(
            owned("Legacy zram-tools detected; consider 'xzram zram migrate' to move to zram-generator"),
        ),
        ZramBackend::Manual => Some(owned("Manual zram configuration detected; xzram will manage via systemd-zram-generator")),
        _ => None,
    }
}

/// The zram backend, refused when it is not available on this host.
pub fn ensure_zram_backend(detected: ZramBackend, available: bool) -> (r: Result<&'static str>)
    ensures
        r is Ok <==> available,
        r matches Ok(n) ==> n@ == zram_generator::BACKEND_NAME@,
        r matches Err(e) ==> e is Backend && e->Backend_0@ == "backend '"@ + zram_generator::BACKEND_NAME@
            + "' is not available on this system"@,
{
    let name = available_zram_backend(detected);
    crate::apply::engine::ensure_backend_available(name, available)?;
    Ok(name)
}

} // verus!
