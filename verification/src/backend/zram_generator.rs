//! The zram-generator backend's logic over config contents: which device
//! is shown, and how a configured device replaces its namesake.
use vstd::prelude::*;

use crate::apply::pending::{join, join_path};
use crate::apply::types::{ZramConfig, ZramConfigView};
use crate::config::{
    parse_zram_generator_conf, sections_view, spec_parse_conf, spec_render_conf, write_zram_generator_conf,
    ZramDeviceSection, ZramGeneratorConf,
};
use crate::error::XzramError;
use crate::text::{chars_eq, chars_of};
use crate::validation::{valid_zram_config, validate_zram_config};

verus! {

pub const BACKEND_NAME: &'static str = "systemd-zram-generator";
pub const FALLBACK_CONFIG_PATH: &'static str = "/etc/systemd/zram-generator.conf";
pub const ZRAM_CONF: &'static str = "systemd/zram-generator.conf";

/// The config that xzram writes, under an `/etc` root.
pub fn managed_config_path(etc_root: &str) -> (p: String)
    ensures
        p@ == join_path(etc_root@, ZRAM_CONF@),
{
    join(etc_root, ZRAM_CONF)
}

/// The zram device a config shows: its first section.
pub fn show(conf: &ZramGeneratorConf) -> (r: Option<ZramConfig>)
    ensures
        match r {
            Some(z) => conf.devices@.len() > 0 && z@ == conf.devices@[0]@,
            None => conf.devices@.len() == 0,
        },
{
    if conf.devices.len() == 0 {
        None
    } else {
        Some(conf.devices[0].to_zram_config())
    }
}

/// The index of the first section named `name`.
pub open spec fn first_named(ds: Seq<ZramConfigView>, name: Seq<char>) -> Option<int> {
    if exists|i: int| 0 <= i < ds.len() && (#[trigger] ds[i]).device == name {
        Some(
            choose|i: int|
                0 <= i < ds.len() && (#[trigger] ds[i]).device == name && forall|j: int|
                    0 <= j < i ==> (#[trigger] ds[j]).device != name,
        )
    } else {
        None
    }
}

/// The sections with `d` in place of the first section of its name, or
/// appended when there is none.
pub open spec fn spec_upsert(ds: Seq<ZramConfigView>, d: ZramConfigView) -> Seq<ZramConfigView> {
    match first_named(ds, d.device) {
        Some(i) => ds.update(i, d),
        None => ds.push(d),
    }
}

proof fn lemma_first_named(ds: Seq<ZramConfigView>, name: Seq<char>, i: int)
    requires
        0 <= i < ds.len(),
        ds[i].device == name,
        forall|j: int| 0 <= j < i ==> (#[trigger] ds[j]).device != name,
    ensures
        first_named(ds, name) == Some(i),
{
    let k = choose|k: int|
        0 <= k < ds.len() && (#[trigger] ds[k]).device == name && forall|j: int|
            0 <= j < k ==> (#[trigger] ds[j]).device != name;
    assert(0 <= k < ds.len() && ds[k].device == name && forall|j: int| 0 <= j < k ==> (#[trigger] ds[j]).device != name);
    if k < i {
        assert(ds[k].device != name);
    }
    if i < k {
        assert(ds[i].device != name);
    }
}

/// Puts `device` in place of the first section with its name, or appends it.
pub fn upsert_device(conf: &mut ZramGeneratorConf, device: ZramDeviceSection)
    ensures
        sections_view(final(conf).devices@) == spec_upsert(sections_view(old(conf).devices@), device@),
{
    let ghost ds = sections_view(conf.devices@);
    let name = chars_of(device.name.as_str());
    let mut i: usize = 0;
    while i < conf.devices.len()
        invariant
            i <= conf.devices.len(),
            ds == sections_view(conf.devices@),
            ds == sections_view(old(conf).devices@),
            name@ == device.name@,
            forall|j: int| 0 <= j < i ==> (#[trigger] ds[j]).device != device@.device,
        decreases conf.devices.len() - i,
    {
        if chars_eq(&chars_of(conf.devices[i].name.as_str()), &name) {
            proof {
                lemma_first_named(ds, device@.device, i as int);
            }
            let ghost d = device@;
            conf.devices.set(i, device);
            assert(sections_view(conf.devices@) =~= ds.update(i as int, d));
            return;
        }
        i = i + 1;
    }
    let ghost d = device@;
    conf.devices.push(device);
    assert(sections_view(conf.devices@) =~= ds.push(d));
}

/// The config text after configuring `config` on top of the current config:
/// the device is validated, replaces its namesake (or is appended), and the
/// whole config is rendered again.
pub fn configure(current: ZramGeneratorConf, config: &ZramConfig) -> (r: Result<String, XzramError>)
    ensures
        r is Ok <==> valid_zram_config(config@),
        r matches Ok(text) ==> text@ == spec_render_conf(spec_upsert(sections_view(current.devices@), config@)),
        r matches Err(e) ==> e is Validation,
{
    validate_zram_config(config)?;
    let mut conf = current;
    upsert_device(&mut conf, ZramDeviceSection::from_zram_config(config));
    Ok(write_zram_generator_conf(&conf))
}

/// The text written to disable zram-generator: an empty override.
pub fn disabled_config() -> (s: String)
    ensures
        s@.len() == 0,
{
    String::new()
}

} // verus!
