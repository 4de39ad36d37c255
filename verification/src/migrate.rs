//! Migration from zram-tools (`/etc/default/zramswap`) to zram-generator.
use vstd::prelude::*;

use crate::apply::pending::{join, join_path};
use crate::apply::types::{empty_pending, PendingConfig, PendingView, ZramConfig, ZramConfigView};
use crate::config::default_zram_config;
use crate::detect::{unquote, unquote_of};
use crate::error::XzramError;
use crate::num::{nat_str, parse_i32, parse_i32_of, parse_u32, parse_u32_of, push_nat};
use crate::text::{
    chars_of, eq_str, lines, lines_of, owned, push_str, split_once, split_once_of, string_of, trim, trim_chars, views,
};

verus! {

pub const ZRAMSWAP_PATH: &'static str = "/etc/default/zramswap";

/// The zram-tools config path under an `/etc` root.
pub fn zramswap_path(etc_root: &str) -> (p: String)
    ensures
        p@ == join_path(etc_root@, "default/zramswap"@),
{
    join(etc_root, "default/zramswap")
}

/// The settings read from a zramswap body.
pub struct Zramswap {
    pub algo: Seq<char>,
    pub percent: Option<u32>,
    pub size_mib: Option<u32>,
    pub priority: Option<i32>,
}

/// One line of a zramswap body: `KEY=value` for ALGO, PERCENT, SIZE and
/// PRIORITY (values trimmed and stripped of quotes); blank lines, comments,
/// unknown keys and numbers that do not parse change nothing.
pub open spec fn zramswap_line(z: Zramswap, line: Seq<char>) -> Zramswap {
    let t = trim(line);
    if t.len() == 0 || t[0] == '#' {
        z
    } else {
        match split_once(t, '=') {
            None => z,
            Some((k, v)) => {
                let key = trim(k);
                let value = unquote(trim(v));
                if key == "ALGO"@ {
                    Zramswap { algo: value, ..z }
                } else if key == "PERCENT"@ {
                    match parse_u32(value) {
                        Some(p) => Zramswap { percent: Some(p), ..z },
                        None => z,
                    }
                } else if key == "SIZE"@ {
                    match parse_u32(value) {
                        Some(s) => Zramswap { size_mib: Some(s), ..z },
                        None => z,
                    }
                } else if key == "PRIORITY"@ {
                    match parse_i32(value) {
                        Some(p) => Zramswap { priority: Some(p), ..z },
                        None => z,
                    }
                } else {
                    z
                }
            },
        }
    }
}

pub open spec fn zramswap_of(ls: Seq<Seq<char>>) -> Zramswap
    decreases ls.len(),
{
    if ls.len() == 0 {
        Zramswap { algo: "zstd"@, percent: None, size_mib: None, priority: None }
    } else {
        zramswap_line(zramswap_of(ls.drop_last()), ls.last())
    }
}

/// Reads ALGO (default `zstd`), PERCENT, SIZE and PRIORITY from a
/// zram-tools `/etc/default/zramswap` body; later lines win.
pub fn parse_zramswap(content: &str) -> (r: (String, Option<u32>, Option<u32>, Option<i32>))
    ensures
        (Zramswap { algo: r.0@, percent: r.1, size_mib: r.2, priority: r.3 }) == zramswap_of(lines(content@)),
{
    let defaults = default_zram_config();
    let mut algo = match defaults.compression_algorithm {
        Some(a) => a,
        None => owned("zstd"),
    };
    let mut percent: Option<u32> = None;
    let mut size_mib: Option<u32> = None;
    let mut priority: Option<i32> = None;
    let c = chars_of(content);
    let ls = lines_of(&c);
    let mut i: usize = 0;
    while i < ls.len()
        invariant
            i <= ls.len(),
            views(ls@) == lines(content@),
            (Zramswap { algo: algo@, percent, size_mib, priority }) == zramswap_of(views(ls@).subrange(0, i as int)),
        decreases ls.len() - i,
    {
        let ghost pre = views(ls@).subrange(0, (i + 1) as int);
        assert(pre.drop_last() == views(ls@).subrange(0, i as int));
        assert(pre.last() == ls@[i as int]@);
        let t = trim_chars(&ls[i]);
        if t.len() > 0 && t[0] != '#' {
            match split_once_of(&t, '=') {
                None => {},
                Some((k, v)) => {
                    let key = trim_chars(&k);
                    let tv = trim_chars(&v);
                    let value = unquote_of(&tv);
                    if eq_str(&key, "ALGO") {
                        algo = string_of(&value);
                    } else if eq_str(&key, "PERCENT") {
                        if let Some(p) = parse_u32_of(&value) {
                            percent = Some(p);
                        }
                    } else if eq_str(&key, "SIZE") {
                        if let Some(s) = parse_u32_of(&value) {
                            size_mib = Some(s);
                        }
                    } else if eq_str(&key, "PRIORITY") {
                        if let Some(p) = parse_i32_of(&value) {
                            priority = Some(p);
                        }
                    }
                },
            }
        }
        i = i + 1;
    }
    assert(views(ls@).subrange(0, ls.len() as int) == views(ls@));
    (algo, percent, size_mib, priority)
}

/// The zram-generator size for zram-tools settings: PERCENT wins over SIZE;
/// neither gives half the RAM.
pub open spec fn spec_size_expression(percent: Option<u32>, size_mib: Option<u32>) -> Seq<char> {
    match percent {
        Some(p) => "ram / 100 * "@ + nat_str(p as nat),
        None => match size_mib {
            Some(s) => nat_str(s as nat),
            None => "ram / 100 * 50"@,
        },
    }
}

pub fn zram_size_expression(percent: Option<u32>, size_mib: Option<u32>) -> (s: String)
    ensures
        s@ == spec_size_expression(percent, size_mib),
{
    match percent {
        Some(p) => {
            let mut s = owned("ram / 100 * ");
            push_nat(&mut s, p as u64);
            s
        },
        None => match size_mib {
            Some(m) => {
                let mut s = String::new();
                push_nat(&mut s, m as u64);
                assert(s@ =~= nat_str(m as nat));
                s
            },
            None => owned("ram / 100 * 50"),
        },
    }
}

/// The pending change that moves a zram-tools setup to zram-generator:
/// zram0 with the migrated size, algorithm and priority (100 if unset).
pub open spec fn spec_migrated(content: Seq<char>) -> PendingView {
    let z = zramswap_of(lines(content));
    PendingView {
        zram: Some(
            ZramConfigView {
                device: "zram0"@,
                zram_size: Some(spec_size_expression(z.percent, z.size_mib)),
                zram_resident_limit: None,
                compression_algorithm: Some(z.algo),
                swap_priority: match z.priority {
                    Some(p) => Some(p),
                    None => Some(100i32),
                },
                fs_type: None,
                mount_point: None,
            },
        ),
        ..empty_pending()
    }
}

/// Stages the migration of the zram-tools config with body `content`;
/// `None` when no such config exists, which is an error.
pub fn migrate_from_zram_tools(content: Option<&str>) -> (r: Result<PendingConfig, XzramError>)
    ensures
        content is None <==> r is Err,
        r matches Err(e) ==> e is NotFound && e->NotFound_0@ == "zram-tools config not found at /etc/default/zramswap"@,
        r matches Ok(p) ==> p@ == spec_migrated(content->0@),
{
    let content = match content {
        Some(c) => c,
        None => return Err(XzramError::NotFound(owned("zram-tools config not found at /etc/default/zramswap"))),
    };
    let (algo, percent, size_mib, priority) = parse_zramswap(content);
    let defaults = default_zram_config();
    let zram_size = zram_size_expression(percent, size_mib);
    let mut p = PendingConfig::default();
    p.zram = Some(
        ZramConfig {
            device: defaults.name,
            zram_size: Some(zram_size),
            zram_resident_limit: None,
            compression_algorithm: Some(algo),
            swap_priority: match priority {
                Some(x) => Some(x),
                None => defaults.swap_priority,
            },
            fs_type: None,
            mount_point: None,
        },
    );
    Ok(p)
}

} // verus!
