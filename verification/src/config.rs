//! zram-generator.conf: parsing, rendering and the default device.
use vstd::prelude::*;

use crate::apply::types::{copy_opt_string, copy_string, sv, ZramConfig, ZramConfigView};
use crate::num::{int_str, parse_i32, parse_i32_of, push_int};
use crate::status::{trim_brackets, trim_brackets_of};
use crate::text::{
    chars_of, ends_with, eq_str, lines, lines_of, owned, push_str, split_once, split_once_of,
    starts_with, string_of, trim, trim_chars, views,
};

verus! {

#[derive(Debug, Clone)]
pub struct ZramGeneratorConf {
    pub devices: Vec<ZramDeviceSection>,
}

#[derive(Debug, Clone)]
pub struct ZramDeviceSection {
    pub name: String,
    pub zram_size: Option<String>,
    pub zram_resident_limit: Option<String>,
    pub compression_algorithm: Option<String>,
    pub swap_priority: Option<i32>,
    pub fs_type: Option<String>,
    pub mount_point: Option<String>,
}

impl View for ZramDeviceSection {
    type V = ZramConfigView;

    open spec fn view(&self) -> ZramConfigView {
        ZramConfigView {
            device: self.name@,
            zram_size: sv(self.zram_size),
            zram_resident_limit: sv(self.zram_resident_limit),
            compression_algorithm: sv(self.compression_algorithm),
            swap_priority: self.swap_priority,
            fs_type: sv(self.fs_type),
            mount_point: sv(self.mount_point),
        }
    }
}

pub open spec fn sections_view(v: Seq<ZramDeviceSection>) -> Seq<ZramConfigView> {
    v.map_values(|d: ZramDeviceSection| d@)
}

impl Default for ZramGeneratorConf {
    fn default() -> (c: Self)
        ensures
            c.devices@.len() == 0,
    {
        ZramGeneratorConf { devices: Vec::new() }
    }
}

impl ZramDeviceSection {
    pub fn duplicate(&self) -> (r: ZramDeviceSection)
        ensures
            r == *self,
            r@ == self@,
    {
        ZramDeviceSection {
            name: copy_string(&self.name),
            zram_size: copy_opt_string(&self.zram_size),
            zram_resident_limit: copy_opt_string(&self.zram_resident_limit),
            compression_algorithm: copy_opt_string(&self.compression_algorithm),
            swap_priority: self.swap_priority,
            fs_type: copy_opt_string(&self.fs_type),
            mount_point: copy_opt_string(&self.mount_point),
        }
    }

    /// The section as the zram config it describes.
    pub fn to_zram_config(&self) -> (z: ZramConfig)
        ensures
            z@ == self@,
    {
        ZramConfig {
            device: copy_string(&self.name),
            zram_size: copy_opt_string(&self.zram_size),
            zram_resident_limit: copy_opt_string(&self.zram_resident_limit),
            compression_algorithm: copy_opt_string(&self.compression_algorithm),
            swap_priority: self.swap_priority,
            fs_type: copy_opt_string(&self.fs_type),
            mount_point: copy_opt_string(&self.mount_point),
        }
    }

    /// The section that describes a zram config.
    pub fn from_zram_config(z: &ZramConfig) -> (d: ZramDeviceSection)
        ensures
            d@ == z@,
    {
        ZramDeviceSection {
            name: copy_string(&z.device),
            zram_size: copy_opt_string(&z.zram_size),
            zram_resident_limit: copy_opt_string(&z.zram_resident_limit),
            compression_algorithm: copy_opt_string(&z.compression_algorithm),
            swap_priority: z.swap_priority,
            fs_type: copy_opt_string(&z.fs_type),
            mount_point: copy_opt_string(&z.mount_point),
        }
    }
}

pub open spec fn spec_default_zram() -> ZramConfigView {
    ZramConfigView {
        device: "zram0"@,
        zram_size: Some("min(ram / 2, 4096)"@),
        zram_resident_limit: None,
        compression_algorithm: Some("zstd"@),
        swap_priority: Some(100),
        fs_type: None,
        mount_point: None,
    }
}

/// zram0, half the RAM up to 4 GiB, zstd, priority 100.
pub fn default_zram_config() -> (d: ZramDeviceSection)
    ensures
        d@ == spec_default_zram(),
{
    ZramDeviceSection {
        name: owned("zram0"),
        zram_size: Some(owned("min(ram / 2, 4096)")),
        zram_resident_limit: None,
        compression_algorithm: Some(owned("zstd")),
        swap_priority: Some(100),
        fs_type: None,
        mount_point: None,
    }
}

// ---------------------------------------------------------------------------
// Parsing
// ---------------------------------------------------------------------------

pub struct ParseState {
    pub devices: Seq<ZramConfigView>,
    pub current: Option<ZramConfigView>,
}

pub open spec fn new_section(name: Seq<char>) -> ZramConfigView {
    ZramConfigView {
        device: name,
        zram_size: None,
        zram_resident_limit: None,
        compression_algorithm: None,
        swap_priority: None,
        fs_type: None,
        mount_point: None,
    }
}

/// The effect of `key = value` on a section; unknown keys are ignored and a
/// priority that does not parse clears the priority.
pub open spec fn set_key(d: ZramConfigView, key: Seq<char>, value: Seq<char>) -> ZramConfigView {
    if key == "zram-size"@ {
        ZramConfigView { zram_size: Some(value), ..d }
    } else if key == "zram-resident-limit"@ {
        ZramConfigView { zram_resident_limit: Some(value), ..d }
    } else if key == "compression-algorithm"@ {
        ZramConfigView { compression_algorithm: Some(value), ..d }
    } else if key == "swap-priority"@ {
        ZramConfigView { swap_priority: parse_i32(value), ..d }
    } else if key == "fs-type"@ {
        ZramConfigView { fs_type: Some(value), ..d }
    } else if key == "mount-point"@ {
        ZramConfigView { mount_point: Some(value), ..d }
    } else {
        d
    }
}

pub open spec fn is_section_header(line: Seq<char>) -> bool {
    starts_with(line, "["@) && ends_with(line, "]"@)
}

pub open spec fn conf_line(st: ParseState, raw: Seq<char>) -> ParseState {
    let line = trim(raw);
    if line.len() == 0 || line[0] == '#' {
        st
    } else if is_section_header(line) {
        ParseState {
            devices: match st.current {
                Some(d) => st.devices.push(d),
                None => st.devices,
            },
            current: Some(new_section(trim_brackets(line))),
        }
    } else {
        match (split_once(line, '='), st.current) {
            (Some((k, v)), Some(d)) => ParseState {
                current: Some(set_key(d, trim(k), trim(v))),
                ..st
            },
            _ => st,
        }
    }
}

pub open spec fn conf_state(ls: Seq<Seq<char>>) -> ParseState
    decreases ls.len(),
{
    if ls.len() == 0 {
        ParseState { devices: Seq::empty(), current: None }
    } else {
        conf_line(conf_state(ls.drop_last()), ls.last())
    }
}

/// The device sections of a zram-generator.conf text, in order.
pub open spec fn spec_parse_conf(content: Seq<char>) -> Seq<ZramConfigView> {
    let st = conf_state(lines(content));
    match st.current {
        Some(d) => st.devices.push(d),
        None => st.devices,
    }
}

fn set_key_of(d: &mut ZramDeviceSection, key: &[char], value: &[char])
    ensures
        final(d)@ == set_key(old(d)@, key@, value@),
{
    if eq_str(key, "zram-size") {
        d.zram_size = Some(string_of(value));
    } else if eq_str(key, "zram-resident-limit") {
        d.zram_resident_limit = Some(string_of(value));
    } else if eq_str(key, "compression-algorithm") {
        d.compression_algorithm = Some(string_of(value));
    } else if eq_str(key, "swap-priority") {
        d.swap_priority = parse_i32_of(value);
    } else if eq_str(key, "fs-type") {
        d.fs_type = Some(string_of(value));
    } else if eq_str(key, "mount-point") {
        d.mount_point = Some(string_of(value));
    }
}

/// Parses a zram-generator.conf text: `[name]` opens a device section and
/// `key = value` lines set its known keys; blank lines and `#` comments are
/// skipped, as are keys outside any section.
pub fn parse_zram_generator_conf(content: &str) -> (conf: ZramGeneratorConf)
    ensures
        sections_view(conf.devices@) == spec_parse_conf(content@),
{
    let c = chars_of(content);
    let ls = lines_of(&c);
    let mut devices: Vec<ZramDeviceSection> = Vec::new();
    let mut current: Option<ZramDeviceSection> = None;
    let mut i: usize = 0;
    assert(sections_view(devices@) =~= Seq::<ZramConfigView>::empty());
    while i < ls.len()
        invariant
            i <= ls.len(),
            views(ls@) == lines(c@),
            c@ == content@,
            (ParseState {
                devices: sections_view(devices@),
                current: match current {
                    Some(d) => Some(d@),
                    None => None,
                },
            }) == conf_state(views(ls@).subrange(0, i as int)),
        decreases ls.len() - i,
    {
        let ghost pre = views(ls@).subrange(0, (i + 1) as int);
        assert(pre.drop_last() == views(ls@).subrange(0, i as int));
        assert(pre.last() == ls@[i as int]@);
        let line = trim_chars(&ls[i]);
        if line.len() == 0 || line[0] == '#' {
        } else if crate::text::starts_with_str(&line, "[") && crate::text::ends_with_of(
            &line,
            &chars_of("]"),
        ) {
            if let Some(d) = current {
                let ghost old_d = devices@;
                devices.push(d);
                assert(sections_view(devices@) =~= sections_view(old_d).push(d@));
            }
            let name = trim_brackets_of(&line);
            current = Some(
                ZramDeviceSection {
                    name: string_of(&name),
                    zram_size: None,
                    zram_resident_limit: None,
                    compression_algorithm: None,
                    swap_priority: None,
                    fs_type: None,
                    mount_point: None,
                },
            );
        } else {
            match split_once_of(&line, '=') {
                Some((k, v)) => {
                    match current {
                        Some(mut d) => {
                            let key = trim_chars(&k);
                            let value = trim_chars(&v);
                            set_key_of(&mut d, &key, &value);
                            current = Some(d);
                        },
                        None => {
                            current = None;
                        },
                    }
                },
                None => {},
            }
        }
        i = i + 1;
    }
    assert(views(ls@).subrange(0, ls.len() as int) == views(ls@));
    if let Some(d) = current {
        let ghost old_d = devices@;
        devices.push(d);
        assert(sections_view(devices@) =~= sections_view(old_d).push(d@));
    }
    ZramGeneratorConf { devices }
}

// ---------------------------------------------------------------------------
// Rendering
// ---------------------------------------------------------------------------

pub open spec fn opt_line(key: Seq<char>, v: Option<Seq<char>>) -> Seq<char> {
    match v {
        Some(x) => key + " = "@ + x + "\n"@,
        None => Seq::empty(),
    }
}

pub open spec fn priority_line(p: Option<i32>) -> Seq<char> {
    match p {
        Some(x) => "swap-priority = "@ + int_str(x as int) + "\n"@,
        None => Seq::empty(),
    }
}

/// One device section: header, the keys that are set, and a blank line.
pub open spec fn section_text(d: ZramConfigView) -> Seq<char> {
    "["@ + d.device + "]\n"@ + opt_line("zram-size"@, d.zram_size) + opt_line(
        "zram-resident-limit"@,
        d.zram_resident_limit,
    ) + opt_line("compression-algorithm"@, d.compression_algorithm) + priority_line(
        d.swap_priority,
    ) + opt_line("fs-type"@, d.fs_type) + opt_line("mount-point"@, d.mount_point) + "\n"@
}

pub open spec fn sections_text(ds: Seq<ZramConfigView>) -> Seq<char>
    decreases ds.len(),
{
    if ds.len() == 0 {
        Seq::empty()
    } else {
        sections_text(ds.drop_last()) + section_text(ds.last())
    }
}

pub open spec fn spec_render_conf(ds: Seq<ZramConfigView>) -> Seq<char> {
    "# Managed by xzram\n"@ + sections_text(ds)
}

fn push_opt_line(s: &mut String, key: &str, v: &Option<String>)
    ensures
        final(s)@ == old(s)@ + opt_line(key@, sv(*v)),
{
    match v {
        Some(x) => {
            push_str(s, key);
            push_str(s, " = ");
            push_str(s, x.as_str());
            push_str(s, "\n");
            assert(final(s)@ =~= old(s)@ + opt_line(key@, sv(*v)));
        },
        None => {
            assert(old(s)@ + Seq::<char>::empty() =~= old(s)@);
        },
    }
}

fn push_priority_line(s: &mut String, p: Option<i32>)
    ensures
        final(s)@ == old(s)@ + priority_line(p),
{
    match p {
        Some(x) => {
            push_str(s, "swap-priority = ");
            push_int(s, x as i64);
            push_str(s, "\n");
            assert(final(s)@ =~= old(s)@ + priority_line(p));
        },
        None => {
            assert(old(s)@ + Seq::<char>::empty() =~= old(s)@);
        },
    }
}

fn push_section(s: &mut String, d: &ZramDeviceSection)
    ensures
        final(s)@ == old(s)@ + section_text(d@),
{
    let ghost s0 = s@;
    push_str(s, "[");
    push_str(s, d.name.as_str());
    push_str(s, "]\n");
    let ghost a = "["@ + d.name@ + "]\n"@;
    assert(s@ =~= s0 + a);
    push_opt_line(s, "zram-size", &d.zram_size);
    let ghost b = a + opt_line("zram-size"@, sv(d.zram_size));
    assert(s@ =~= s0 + b);
    push_opt_line(s, "zram-resident-limit", &d.zram_resident_limit);
    let ghost c = b + opt_line("zram-resident-limit"@, sv(d.zram_resident_limit));
    assert(s@ =~= s0 + c);
    push_opt_line(s, "compression-algorithm", &d.compression_algorithm);
    let ghost e = c + opt_line("compression-algorithm"@, sv(d.compression_algorithm));
    assert(s@ =~= s0 + e);
    push_priority_line(s, d.swap_priority);
    let ghost f = e + priority_line(d.swap_priority);
    assert(s@ =~= s0 + f);
    push_opt_line(s, "fs-type", &d.fs_type);
    let ghost g = f + opt_line("fs-type"@, sv(d.fs_type));
    assert(s@ =~= s0 + g);
    push_opt_line(s, "mount-point", &d.mount_point);
    let ghost h = g + opt_line("mount-point"@, sv(d.mount_point));
    assert(s@ =~= s0 + h);
    push_str(s, "\n");
    assert(s@ =~= s0 + (h + "\n"@));
    assert(h + "\n"@ == section_text(d@));
}

/// The text of a managed zram-generator.conf for `conf`.
pub fn write_zram_generator_conf(conf: &ZramGeneratorConf) -> (text: String)
    ensures
        text@ == spec_render_conf(sections_view(conf.devices@)),
{
    let mut text = owned("# Managed by xzram\n");
    let mut i: usize = 0;
    while i < conf.devices.len()
        invariant
            i <= conf.devices.len(),
            text@ == "# Managed by xzram\n"@ + sections_text(
                sections_view(conf.devices@).subrange(0, i as int),
            ),
        decreases conf.devices.len() - i,
    {
        let ghost pre = sections_view(conf.devices@).subrange(0, (i + 1) as int);
        assert(pre.drop_last() == sections_view(conf.devices@).subrange(0, i as int));
        assert(pre.last() == conf.devices@[i as int]@);
        push_section(&mut text, &conf.devices[i]);
        i = i + 1;
    }
    assert(sections_view(conf.devices@).subrange(0, conf.devices.len() as int) == sections_view(
        conf.devices@,
    ));
    text
}

} // verus!
