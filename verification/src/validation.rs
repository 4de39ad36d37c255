//! Input validation for zram and swapfile settings before they reach
//! generator configs, fstab or the shell.
use vstd::prelude::*;

use crate::apply::types::{sv, SwapfileConfig, SwapfileConfigView, ZramConfig, ZramConfigView};
use crate::error::XzramError;
use crate::text::{chars_of, contains_seq, contains_str, is_ws, is_ws_char, push_str, starts_with, starts_with_str};

verus! {

pub const PRIORITY_MIN: i32 = -1;
pub const PRIORITY_MAX: i32 = 32767;

pub open spec fn is_ascii_alnum(c: char) -> bool {
    let u = c as u32;
    (48 <= u && u <= 57) || (65 <= u && u <= 90) || (97 <= u && u <= 122)
}

/// A zram device name: non-empty, ASCII letters, digits, `-` and `_` only.
pub open spec fn valid_device_name(n: Seq<char>) -> bool {
    n.len() > 0 && forall|i: int|
        0 <= i < n.len() ==> is_ascii_alnum(#[trigger] n[i]) || n[i] == '-' || n[i] == '_'
}

/// A character that could break a generator config line or section.
pub open spec fn is_unsafe_value_char(c: char) -> bool {
    (c as u32) < 0x20 || (c as u32) == 0x7F || c == '[' || c == ']' || c == '#'
}

/// A generator config value: non-empty, no control characters, brackets or
/// `#`, and no whitespace at either end.
pub open spec fn valid_value(v: Seq<char>) -> bool {
    &&& v.len() > 0
    &&& forall|i: int| 0 <= i < v.len() ==> !is_unsafe_value_char(#[trigger] v[i])
    &&& !is_ws(v[0])
    &&& !is_ws(v.last())
}

pub open spec fn valid_opt_value(v: Option<Seq<char>>) -> bool {
    match v {
        Some(x) => valid_value(x),
        None => true,
    }
}

pub open spec fn valid_priority(p: i32) -> bool {
    PRIORITY_MIN <= p && p <= PRIORITY_MAX
}

pub open spec fn valid_opt_priority(p: Option<i32>) -> bool {
    match p {
        Some(x) => valid_priority(x),
        None => true,
    }
}

pub open spec fn valid_zram_config(z: ZramConfigView) -> bool {
    &&& valid_device_name(z.device)
    &&& valid_opt_value(z.zram_size)
    &&& valid_opt_value(z.zram_resident_limit)
    &&& valid_opt_value(z.compression_algorithm)
    &&& valid_opt_priority(z.swap_priority)
    &&& valid_opt_value(z.fs_type)
    &&& valid_opt_value(z.mount_point)
}

pub fn valid_device_name_of(n: &[char]) -> (b: bool)
    ensures
        b == valid_device_name(n@),
{
    if n.len() == 0 {
        return false;
    }
    let mut i: usize = 0;
    while i < n.len()
        invariant
            i <= n.len(),
            forall|j: int|
                0 <= j < i ==> is_ascii_alnum(#[trigger] n@[j]) || n@[j] == '-' || n@[j] == '_',
        decreases n.len() - i,
    {
        let c = n[i];
        let u = c as u32;
        let ok = (48 <= u && u <= 57) || (65 <= u && u <= 90) || (97 <= u && u <= 122) || c == '-'
            || c == '_';
        if !ok {
            return false;
        }
        i = i + 1;
    }
    true
}

pub fn valid_value_of(v: &[char]) -> (b: bool)
    ensures
        b == valid_value(v@),
{
    if v.len() == 0 {
        return false;
    }
    if is_ws_char(v[0]) || is_ws_char(v[v.len() - 1]) {
        return false;
    }
    let mut i: usize = 0;
    while i < v.len()
        invariant
            i <= v.len(),
            forall|j: int| 0 <= j < i ==> !is_unsafe_value_char(#[trigger] v@[j]),
        decreases v.len() - i,
    {
        let c = v[i];
        let u = c as u32;
        if u < 0x20 || u == 0x7F || c == '[' || c == ']' || c == '#' {
            return false;
        }
        i = i + 1;
    }
    true
}

/// The message for an invalid field.
pub open spec fn invalid_message(field: Seq<char>, value: Seq<char>) -> Seq<char> {
    "invalid "@ + field + ": "@ + value
}

fn invalid(field: &str, value: &str) -> (e: XzramError)
    ensures
        e is Validation,
        e->Validation_0@ == invalid_message(field@, value@),
{
    let mut m = String::new();
    push_str(&mut m, "invalid ");
    push_str(&mut m, field);
    push_str(&mut m, ": ");
    push_str(&mut m, value);
    assert(m@ =~= invalid_message(field@, value@));
    XzramError::Validation(m)
}

fn check_opt_value(field: &str, v: &Option<String>) -> (r: Result<(), XzramError>)
    ensures
        r is Ok <==> valid_opt_value(sv(*v)),
        r is Err ==> r->Err_0 is Validation && r->Err_0->Validation_0@ == invalid_message(
            field@,
            v->0@,
        ),
{
    match v {
        Some(s) => {
            let c = chars_of(s.as_str());
            if valid_value_of(&c) {
                Ok(())
            } else {
                Err(invalid(field, s.as_str()))
            }
        },
        None => Ok(()),
    }
}

/// The first field of `z` that fails, in the order device, size, resident
/// limit, algorithm, priority, fs type, mount point, with the message for it.
pub open spec fn zram_validation_message(z: ZramConfigView) -> Seq<char> {
    if !valid_device_name(z.device) {
        invalid_message("zram device name"@, z.device)
    } else if !valid_opt_value(z.zram_size) {
        invalid_message("zram-size"@, z.zram_size->0)
    } else if !valid_opt_value(z.zram_resident_limit) {
        invalid_message("zram-resident-limit"@, z.zram_resident_limit->0)
    } else if !valid_opt_value(z.compression_algorithm) {
        invalid_message("compression-algorithm"@, z.compression_algorithm->0)
    } else if !valid_opt_priority(z.swap_priority) {
        "swap-priority must be between -1 and 32767"@
    } else if !valid_opt_value(z.fs_type) {
        invalid_message("fs-type"@, z.fs_type->0)
    } else {
        invalid_message("mount-point"@, z.mount_point->0)
    }
}

/// Checks a zram config before it is written to a generator config.
pub fn validate_zram_config(config: &ZramConfig) -> (r: Result<(), XzramError>)
    ensures
        r is Ok <==> valid_zram_config(config@),
        r is Err ==> r->Err_0 is Validation && r->Err_0->Validation_0@ == zram_validation_message(
            config@,
        ),
{
    let d = chars_of(config.device.as_str());
    if !valid_device_name_of(&d) {
        return Err(invalid("zram device name", config.device.as_str()));
    }
    check_opt_value("zram-size", &config.zram_size)?;
    check_opt_value("zram-resident-limit", &config.zram_resident_limit)?;
    check_opt_value("compression-algorithm", &config.compression_algorithm)?;
    if let Some(p) = config.swap_priority {
        if p < -1 || p > 32767 {
            return Err(
                XzramError::Validation(
                    crate::text::owned("swap-priority must be between -1 and 32767"),
                ),
            );
        }
    }
    check_opt_value("fs-type", &config.fs_type)?;
    check_opt_value("mount-point", &config.mount_point)?;
    Ok(())
}

/// A swapfile path: absolute, more than `/`, no whitespace or control
/// characters (it goes into fstab and onto command lines), no `..`
/// component, and not under `/dev/`, `/proc/` or `/sys/`.
pub open spec fn valid_swapfile_path(p: Seq<char>) -> bool {
    &&& p.len() > 1
    &&& p[0] == '/'
    &&& forall|i: int| 0 <= i < p.len() ==> !is_ws(#[trigger] p[i]) && (p[i] as u32) >= 0x20 && (
    p[i] as u32) != 0x7F
    &&& !contains_seq(p, "/../"@)
    &&& !(p.len() >= 3 && p.subrange(p.len() - 3, p.len() as int) == "/.."@)
    &&& !starts_with(p, "/dev/"@)
    &&& !starts_with(p, "/proc/"@)
    &&& !starts_with(p, "/sys/"@)
}

pub fn validate_swapfile_path(path: &str) -> (r: Result<(), XzramError>)
    ensures
        r is Ok <==> valid_swapfile_path(path@),
        r is Err ==> r->Err_0 is Validation && r->Err_0->Validation_0@ == invalid_message(
            "swapfile path"@,
            path@,
        ),
{
    let p = chars_of(path);
    let mut ok = p.len() > 1 && p[0] == '/';
    if ok {
        let mut i: usize = 0;
        while i < p.len()
            invariant
                i <= p.len(),
                p@ == path@,
                p.len() > 1,
                forall|j: int|
                    0 <= j < i ==> !is_ws(#[trigger] p@[j]) && (p@[j] as u32) >= 0x20 && (
                    p@[j] as u32) != 0x7F,
            decreases p.len() - i,
        {
            let c = p[i];
            if is_ws_char(c) || (c as u32) < 0x20 || (c as u32) == 0x7F {
                assert(!valid_swapfile_path(path@)) by {
                    assert(p@[i as int] == c);
                }
                return Err(invalid("swapfile path", path));
            }
            i = i + 1;
        }
        let tail_dots = p.len() >= 3 && p[p.len() - 3] == '/' && p[p.len() - 2] == '.' && p[p.len()
            - 1] == '.';
        proof {
            if p@.len() >= 3 {
                reveal_strlit("/..");
                let t = p@.subrange(p@.len() - 3, p@.len() as int);
                assert(tail_dots ==> t =~= "/.."@);
                assert(t == "/.."@ ==> t[0] == '/' && t[1] == '.' && t[2] == '.');
            }
        }
        ok = !contains_str(&p, "/../") && !tail_dots && !starts_with_str(&p, "/dev/")
            && !starts_with_str(&p, "/proc/") && !starts_with_str(&p, "/sys/");
    }
    if ok {
        Ok(())
    } else {
        Err(invalid("swapfile path", path))
    }
}

/// The path accepted by `swapfile prepare`: the same rule as for swapfiles.
pub fn validate_swapfile_prepare_path(path: &str) -> (r: Result<(), XzramError>)
    ensures
        r is Ok <==> valid_swapfile_path(path@),
        r is Err ==> r->Err_0 is Validation && r->Err_0->Validation_0@ == invalid_message(
            "swapfile path"@,
            path@,
        ),
{
    validate_swapfile_path(path)
}

pub open spec fn valid_swapfile_config(c: SwapfileConfigView) -> bool {
    valid_swapfile_path(c.path) && c.size_mb > 0 && valid_priority(c.priority)
}

/// Checks a swapfile request: a valid path, a size above 0 MiB and a
/// priority between -1 and 32767. Returns the accepted config.
pub fn validate_swapfile_config(config: &SwapfileConfig) -> (r: Result<SwapfileConfig, XzramError>)
    ensures
        r is Ok <==> valid_swapfile_config(config@),
        r matches Ok(c) ==> c@ == config@,
        r is Err ==> r->Err_0 is Validation,
{
    validate_swapfile_path(config.path.as_str())?;
    if config.size_mb == 0 {
        return Err(
            XzramError::Validation(crate::text::owned("swapfile size must be greater than 0 MiB")),
        );
    }
    if config.priority < -1 || config.priority > 32767 {
        return Err(
            XzramError::Validation(
                crate::text::owned("swapfile priority must be between -1 and 32767"),
            ),
        );
    }
    Ok(config.duplicate())
}

/// Checks a resize request: a size above 0 MiB first, then a valid path.
pub fn validate_swapfile_resize(path: &str, size_mb: u64) -> (r: Result<(), XzramError>)
    ensures
        size_mb == 0 ==> r is Err && r->Err_0 is Validation && r->Err_0->Validation_0@
            == "swapfile size must be greater than 0 MiB"@,
        size_mb != 0 ==> (r is Ok <==> valid_swapfile_path(path@)),
        size_mb != 0 && r is Err ==> r->Err_0 is Validation && r->Err_0->Validation_0@ == invalid_message(
            "swapfile path"@,
            path@,
        ),
{
    if size_mb == 0 {
        return Err(XzramError::Validation(crate::text::owned("swapfile size must be greater than 0 MiB")));
    }
    validate_swapfile_path(path)
}

} // verus!
