//! Distro, package manager and zram backend detection.
use vstd::prelude::*;

use crate::error::XzramError;
use crate::text::{
    chars_of, contains_seq, contains_str, eq_str, lines, lines_of, owned, split_char, split_on,
    split_once, split_once_of, split_ws, split_ws_of, str_lowercase, string_of, to_lowercase, trim,
    trim_chars, views,
};

verus! {

#[derive(Debug, Clone, Copy, PartialEq, Eq, Structural)]
pub enum DistroFamily {
    Fedora,
    Debian,
    Ubuntu,
    Arch,
    OpenSuse,
    Gentoo,
    Unknown,
}

#[derive(Debug, Clone)]
pub struct DistroInfo {
    pub id: String,
    pub id_like: Vec<String>,
    pub family: DistroFamily,
    pub version_id: Option<String>,
    pub pretty_name: Option<String>,
}

#[derive(Debug, Clone, Copy, PartialEq, Eq, Structural)]
pub enum PackageManager {
    Dnf,
    Apt,
    Pacman,
    Zypper,
    Emerge,
    Unknown,
}

#[derive(Debug, Clone, Copy, PartialEq, Eq, Structural)]
pub enum ZramBackend {
    SystemdZramGenerator,
    ZramTools,
    Manual,
    Absent,
}

#[derive(Debug, Clone)]
pub struct DetectionReport {
    pub distro: DistroInfo,
    pub package_manager: PackageManager,
    pub init_system: String,
    pub zram_backend: ZramBackend,
    pub zram_generator_installed: bool,
    pub zram_generator_config: Option<String>,
    pub root_filesystem: Option<String>,
    pub etc_writable: bool,
    pub immutable_os: bool,
}

pub open spec fn strings_view(v: Seq<String>) -> Seq<Seq<char>> {
    v.map_values(|s: String| s@)
}

pub open spec fn like_has(like: Seq<Seq<char>>, x: Seq<char>) -> bool {
    exists|i: int| 0 <= i < like.len() && like[i] == x
}

/// The distro family from `ID`, falling back to `ID_LIKE`.
pub open spec fn spec_classify(id: Seq<char>, like: Seq<Seq<char>>) -> DistroFamily {
    if id == "fedora"@ || id == "rhel"@ || id == "centos"@ || id == "rocky"@ || id
        == "almalinux"@ {
        DistroFamily::Fedora
    } else if id == "debian"@ {
        DistroFamily::Debian
    } else if id == "ubuntu"@ || id == "pop"@ || id == "linuxmint"@ {
        DistroFamily::Ubuntu
    } else if id == "arch"@ || id == "cachyos"@ || id == "manjaro"@ || id == "endeavouros"@ {
        DistroFamily::Arch
    } else if id == "opensuse-leap"@ || id == "opensuse-tumbleweed"@ || id == "suse"@ {
        DistroFamily::OpenSuse
    } else if id == "gentoo"@ {
        DistroFamily::Gentoo
    } else if like_has(like, "fedora"@) || like_has(like, "rhel"@) {
        DistroFamily::Fedora
    } else if like_has(like, "debian"@) {
        if like_has(like, "ubuntu"@) {
            DistroFamily::Ubuntu
        } else {
            DistroFamily::Debian
        }
    } else if like_has(like, "arch"@) {
        DistroFamily::Arch
    } else if like_has(like, "suse"@) {
        DistroFamily::OpenSuse
    } else {
        DistroFamily::Unknown
    }
}

/// Some entry of `like` equals the literal `x`.
pub fn like_contains(like: &[String], x: &str) -> (r: bool)
    ensures
        r == like_has(strings_view(like@), x@),
{
    let mut i: usize = 0;
    while i < like.len()
        invariant
            i <= like.len(),
            forall|j: int| 0 <= j < i ==> like@[j]@ != x@,
        decreases like.len() - i,
    {
        let c = chars_of(like[i].as_str());
        if eq_str(&c, x) {
            assert(strings_view(like@)[i as int] == x@);
            return true;
        }
        i = i + 1;
    }
    assert forall|j: int| 0 <= j < like.len() implies strings_view(like@)[j] != x@ by {
        assert(strings_view(like@)[j] == like@[j]@);
    }
    false
}

fn id_is(id: &[char], names: &[&str]) -> (r: bool)
    ensures
        r == exists|i: int| 0 <= i < names.len() && id@ == names@[i]@,
{
    let mut i: usize = 0;
    while i < names.len()
        invariant
            i <= names.len(),
            forall|j: int| 0 <= j < i ==> id@ != names@[j]@,
        decreases names.len() - i,
    {
        if eq_str(id, names[i]) {
            return true;
        }
        i = i + 1;
    }
    false
}

/// A distribution ID of the table gets its family whatever ID_LIKE holds:
/// Fedora, RHEL, CentOS, Rocky and AlmaLinux are Fedora; Debian is Debian;
/// Ubuntu, Pop!_OS and Linux Mint are Ubuntu; Arch, CachyOS, Manjaro and
/// EndeavourOS are Arch; openSUSE Leap, Tumbleweed and SUSE are openSUSE;
/// Gentoo is Gentoo.
pub proof fn lemma_known_ids_classify(like: Seq<Seq<char>>)
    ensures
        spec_classify("fedora"@, like) == DistroFamily::Fedora,
        spec_classify("rhel"@, like) == DistroFamily::Fedora,
        spec_classify("centos"@, like) == DistroFamily::Fedora,
        spec_classify("rocky"@, like) == DistroFamily::Fedora,
        spec_classify("almalinux"@, like) == DistroFamily::Fedora,
        spec_classify("debian"@, like) == DistroFamily::Debian,
        spec_classify("ubuntu"@, like) == DistroFamily::Ubuntu,
        spec_classify("pop"@, like) == DistroFamily::Ubuntu,
        spec_classify("linuxmint"@, like) == DistroFamily::Ubuntu,
        spec_classify("arch"@, like) == DistroFamily::Arch,
        spec_classify("cachyos"@, like) == DistroFamily::Arch,
        spec_classify("manjaro"@, like) == DistroFamily::Arch,
        spec_classify("endeavouros"@, like) == DistroFamily::Arch,
        spec_classify("opensuse-leap"@, like) == DistroFamily::OpenSuse,
        spec_classify("opensuse-tumbleweed"@, like) == DistroFamily::OpenSuse,
        spec_classify("suse"@, like) == DistroFamily::OpenSuse,
        spec_classify("gentoo"@, like) == DistroFamily::Gentoo,
{
    reveal_strlit("fedora");
    reveal_strlit("rhel");
    reveal_strlit("centos");
    reveal_strlit("rocky");
    reveal_strlit("almalinux");
    reveal_strlit("debian");
    reveal_strlit("ubuntu");
    reveal_strlit("pop");
    reveal_strlit("linuxmint");
    reveal_strlit("arch");
    reveal_strlit("cachyos");
    reveal_strlit("manjaro");
    reveal_strlit("endeavouros");
    reveal_strlit("opensuse-leap");
    reveal_strlit("opensuse-tumbleweed");
    reveal_strlit("suse");
    reveal_strlit("gentoo");
    assert("fedora"@.len() == 6);
    assert("rhel"@.len() == 4);
    assert("centos"@.len() == 6);
    assert("rocky"@.len() == 5);
    assert("almalinux"@.len() == 9);
    assert("debian"@.len() == 6);
    assert("ubuntu"@.len() == 6);
    assert("pop"@.len() == 3);
    assert("linuxmint"@.len() == 9);
    assert("arch"@.len() == 4);
    assert("cachyos"@.len() == 7);
    assert("manjaro"@.len() == 7);
    assert("endeavouros"@.len() == 11);
    assert("opensuse-leap"@.len() == 13);
    assert("opensuse-tumbleweed"@.len() == 19);
    assert("suse"@.len() == 4);
    assert("gentoo"@.len() == 6);
    assert("centos"@ != "fedora"@) by {
        assert("centos"@[0] != "fedora"@[0]);
    }
    assert("debian"@ != "fedora"@) by {
        assert("debian"@[0] != "fedora"@[0]);
    }
    assert("debian"@ != "centos"@) by {
        assert("debian"@[0] != "centos"@[0]);
    }
    assert("ubuntu"@ != "fedora"@) by {
        assert("ubuntu"@[0] != "fedora"@[0]);
    }
    assert("ubuntu"@ != "centos"@) by {
        assert("ubuntu"@[0] != "centos"@[0]);
    }
    assert("ubuntu"@ != "debian"@) by {
        assert("ubuntu"@[0] != "debian"@[0]);
    }
    assert("linuxmint"@ != "almalinux"@) by {
        assert("linuxmint"@[0] != "almalinux"@[0]);
    }
    assert("arch"@ != "rhel"@) by {
        assert("arch"@[0] != "rhel"@[0]);
    }
    assert("manjaro"@ != "cachyos"@) by {
        assert("manjaro"@[0] != "cachyos"@[0]);
    }
    assert("suse"@ != "rhel"@) by {
        assert("suse"@[0] != "rhel"@[0]);
    }
    assert("suse"@ != "arch"@) by {
        assert("suse"@[0] != "arch"@[0]);
    }
    assert("gentoo"@ != "fedora"@) by {
        assert("gentoo"@[0] != "fedora"@[0]);
    }
    assert("gentoo"@ != "centos"@) by {
        assert("gentoo"@[0] != "centos"@[0]);
    }
    assert("gentoo"@ != "debian"@) by {
        assert("gentoo"@[0] != "debian"@[0]);
    }
    assert("gentoo"@ != "ubuntu"@) by {
        assert("gentoo"@[0] != "ubuntu"@[0]);
    }
}

/// An ID outside the table falls back to ID_LIKE: a Fedora or RHEL
/// relative is Fedora; else a Debian relative is Ubuntu when it also names
/// Ubuntu and Debian otherwise; else an Arch relative is Arch, a SUSE
/// relative is openSUSE, and anything else is unknown.
pub proof fn lemma_like_fallback(id: Seq<char>, like: Seq<Seq<char>>)
    requires
        !(id == "fedora"@ || id == "rhel"@ || id == "centos"@ || id == "rocky"@ || id == "almalinux"@ || id == "debian"@ || id == "ubuntu"@ || id == "pop"@ || id == "linuxmint"@ || id == "arch"@ || id == "cachyos"@ || id == "manjaro"@ || id == "endeavouros"@ || id == "opensuse-leap"@ || id == "opensuse-tumbleweed"@ || id == "suse"@ || id == "gentoo"@),
    ensures
        (like.contains("fedora"@) || like.contains("rhel"@)) ==> spec_classify(id, like) == DistroFamily::Fedora,
        !(like.contains("fedora"@) || like.contains("rhel"@)) && like.contains("debian"@) ==> spec_classify(id, like)
            == (if like.contains("ubuntu"@) { DistroFamily::Ubuntu } else { DistroFamily::Debian }),
        !(like.contains("fedora"@) || like.contains("rhel"@) || like.contains("debian"@)) && like.contains("arch"@)
            ==> spec_classify(id, like) == DistroFamily::Arch,
        !(like.contains("fedora"@) || like.contains("rhel"@) || like.contains("debian"@) || like.contains("arch"@))
            && like.contains("suse"@) ==> spec_classify(id, like) == DistroFamily::OpenSuse,
        !(like.contains("fedora"@) || like.contains("rhel"@) || like.contains("debian"@) || like.contains("arch"@)
            || like.contains("suse"@)) ==> spec_classify(id, like) == DistroFamily::Unknown,
{
    assert forall|x: Seq<char>| like_has(like, x) == like.contains(x) by {
        if like.contains(x) {
            let i = choose|i: int| 0 <= i < like.len() && like[i] == x;
            assert(like_has(like, x));
        }
    }
}

pub fn classify_distro_fields(id: &str, id_like: &[String]) -> (f: DistroFamily)
    ensures
        f == spec_classify(id@, strings_view(id_like@)),
{
    let v = chars_of(id);
    if eq_str(&v, "fedora") || eq_str(&v, "rhel") || eq_str(&v, "centos") || eq_str(&v, "rocky")
        || eq_str(&v, "almalinux") {
        DistroFamily::Fedora
    } else if eq_str(&v, "debian") {
        DistroFamily::Debian
    } else if eq_str(&v, "ubuntu") || eq_str(&v, "pop") || eq_str(&v, "linuxmint") {
        DistroFamily::Ubuntu
    } else if eq_str(&v, "arch") || eq_str(&v, "cachyos") || eq_str(&v, "manjaro") || eq_str(
        &v,
        "endeavouros",
    ) {
        DistroFamily::Arch
    } else if eq_str(&v, "opensuse-leap") || eq_str(&v, "opensuse-tumbleweed") || eq_str(
        &v,
        "suse",
    ) {
        DistroFamily::OpenSuse
    } else if eq_str(&v, "gentoo") {
        DistroFamily::Gentoo
    } else if like_contains(id_like, "fedora") || like_contains(id_like, "rhel") {
        DistroFamily::Fedora
    } else if like_contains(id_like, "debian") {
        if like_contains(id_like, "ubuntu") {
            DistroFamily::Ubuntu
        } else {
            DistroFamily::Debian
        }
    } else if like_contains(id_like, "arch") {
        DistroFamily::Arch
    } else if like_contains(id_like, "suse") {
        DistroFamily::OpenSuse
    } else {
        DistroFamily::Unknown
    }
}

pub fn classify_distro(info: &DistroInfo) -> (f: DistroFamily)
    ensures
        f == spec_classify(info.id@, strings_view(info.id_like@)),
{
    classify_distro_fields(info.id.as_str(), &info.id_like)
}

/// The package manager for a family; an unknown family falls back on
/// `ID_LIKE`, then on which of pacman, apt and dnf is installed.
pub open spec fn spec_package_manager(
    family: DistroFamily,
    like: Seq<Seq<char>>,
    has_pacman: bool,
    has_apt: bool,
    has_dnf: bool,
) -> PackageManager {
    match family {
        DistroFamily::Fedora => PackageManager::Dnf,
        DistroFamily::Debian | DistroFamily::Ubuntu => PackageManager::Apt,
        DistroFamily::Arch => PackageManager::Pacman,
        DistroFamily::OpenSuse => PackageManager::Zypper,
        DistroFamily::Gentoo => PackageManager::Emerge,
        DistroFamily::Unknown => if like_has(like, "debian"@) || like_has(like, "ubuntu"@) {
            PackageManager::Apt
        } else if like_has(like, "fedora"@) || like_has(like, "rhel"@) {
            PackageManager::Dnf
        } else if has_pacman {
            PackageManager::Pacman
        } else if has_apt {
            PackageManager::Apt
        } else if has_dnf {
            PackageManager::Dnf
        } else {
            PackageManager::Unknown
        },
    }
}

/// A known family determines the package manager whatever is installed:
/// dnf for Fedora, apt for Debian and Ubuntu, pacman for Arch, zypper for
/// openSUSE, emerge for Gentoo.
pub proof fn lemma_package_manager_by_family(like: Seq<Seq<char>>, has_pacman: bool, has_apt: bool, has_dnf: bool)
    ensures
        spec_package_manager(DistroFamily::Fedora, like, has_pacman, has_apt, has_dnf) == PackageManager::Dnf,
        spec_package_manager(DistroFamily::Debian, like, has_pacman, has_apt, has_dnf) == PackageManager::Apt,
        spec_package_manager(DistroFamily::Ubuntu, like, has_pacman, has_apt, has_dnf) == PackageManager::Apt,
        spec_package_manager(DistroFamily::Arch, like, has_pacman, has_apt, has_dnf) == PackageManager::Pacman,
        spec_package_manager(DistroFamily::OpenSuse, like, has_pacman, has_apt, has_dnf) == PackageManager::Zypper,
        spec_package_manager(DistroFamily::Gentoo, like, has_pacman, has_apt, has_dnf) == PackageManager::Emerge,
{
}

pub fn detect_package_manager(
    family: &DistroFamily,
    id_like: &[String],
    has_pacman: bool,
    has_apt: bool,
    has_dnf: bool,
) -> (p: PackageManager)
    ensures
        p == spec_package_manager(*family, strings_view(id_like@), has_pacman, has_apt, has_dnf),
{
    match family {
        DistroFamily::Fedora => PackageManager::Dnf,
        DistroFamily::Debian | DistroFamily::Ubuntu => PackageManager::Apt,
        DistroFamily::Arch => PackageManager::Pacman,
        DistroFamily::OpenSuse => PackageManager::Zypper,
        DistroFamily::Gentoo => PackageManager::Emerge,
        DistroFamily::Unknown => {
            if like_contains(id_like, "debian") || like_contains(id_like, "ubuntu") {
                PackageManager::Apt
            } else if like_contains(id_like, "fedora") || like_contains(id_like, "rhel") {
                PackageManager::Dnf
            } else if has_pacman {
                PackageManager::Pacman
            } else if has_apt {
                PackageManager::Apt
            } else if has_dnf {
                PackageManager::Dnf
            } else {
                PackageManager::Unknown
            }
        },
    }
}

pub open spec fn spec_package_name(pm: PackageManager) -> Seq<char> {
    match pm {
        PackageManager::Apt => "systemd-zram-generator"@,
        _ => "zram-generator"@,
    }
}

/// The distro package that ships zram-generator.
pub fn zram_generator_package_name(pm: PackageManager) -> (n: &'static str)
    ensures
        n@ == spec_package_name(pm),
{
    match pm {
        PackageManager::Dnf | PackageManager::Pacman | PackageManager::Zypper => "zram-generator",
        PackageManager::Apt => "systemd-zram-generator",
        PackageManager::Emerge | PackageManager::Unknown => "zram-generator",
    }
}

/// Some comma-separated mount option is exactly `ro` (after trimming).
pub open spec fn spec_options_include_ro(opts: Seq<char>) -> bool {
    exists|i: int|
        0 <= i < split_char(opts, ',').len() && trim(#[trigger] split_char(opts, ',')[i]) == "ro"@
}

pub fn findmnt_options_include_ro(opts: &str) -> (r: bool)
    ensures
        r == spec_options_include_ro(opts@),
{
    let c = chars_of(opts);
    let parts = split_on(&c, ',');
    let mut i: usize = 0;
    while i < parts.len()
        invariant
            i <= parts.len(),
            c@ == opts@,
            views(parts@) == split_char(c@, ','),
            forall|j: int| 0 <= j < i ==> trim(#[trigger] split_char(c@, ',')[j]) != "ro"@,
        decreases parts.len() - i,
    {
        let t = trim_chars(&parts[i]);
        assert(parts@[i as int]@ == split_char(c@, ',')[i as int]);
        if eq_str(&t, "ro") {
            assert(trim(split_char(opts@, ',')[i as int]) == "ro"@);
            return true;
        }
        i = i + 1;
    }
    false
}

// ---------------------------------------------------------------------------
// /etc/os-release
// ---------------------------------------------------------------------------

/// `s` without leading and trailing `'"'` (`trim_matches('"')`).
pub open spec fn unquote(s: Seq<char>) -> Seq<char>
    decreases s.len(),
{
    if s.len() > 0 && s[0] == '"' {
        unquote(s.drop_first())
    } else if s.len() > 0 && s.last() == '"' {
        unquote(s.drop_last())
    } else {
        s
    }
}

pub fn unquote_of(s: &[char]) -> (r: Vec<char>)
    ensures
        r@ == unquote(s@),
    decreases s.len(),
{
    if s.len() > 0 && s[0] == '"' {
        let t = crate::text::slice_of(s, 1, s.len());
        assert(t@ == s@.drop_first());
        unquote_of(&t)
    } else if s.len() > 0 && s[s.len() - 1] == '"' {
        let t = crate::text::slice_of(s, 0, s.len() - 1);
        assert(t@ == s@.drop_last());
        unquote_of(&t)
    } else {
        let t = crate::text::slice_of(s, 0, s.len());
        assert(t@ == s@);
        t
    }
}

/// The fields read from os-release so far.
pub struct OsRelease {
    pub id: Seq<char>,
    pub id_like: Seq<Seq<char>>,
    pub version_id: Option<Seq<char>>,
    pub pretty_name: Option<Seq<char>>,
}

pub open spec fn os_release_line(o: OsRelease, line: Seq<char>) -> OsRelease {
    match split_once(line, '=') {
        None => o,
        Some((key, raw)) => {
            let value = unquote(raw);
            if key == "ID"@ {
                OsRelease { id: value, ..o }
            } else if key == "ID_LIKE"@ {
                OsRelease { id_like: split_ws(value), ..o }
            } else if key == "VERSION_ID"@ {
                OsRelease { version_id: Some(value), ..o }
            } else if key == "PRETTY_NAME"@ {
                OsRelease { pretty_name: Some(value), ..o }
            } else {
                o
            }
        },
    }
}

pub open spec fn os_release_of(ls: Seq<Seq<char>>) -> OsRelease
    decreases ls.len(),
{
    if ls.len() == 0 {
        OsRelease { id: "unknown"@, id_like: Seq::empty(), version_id: None, pretty_name: None }
    } else {
        os_release_line(os_release_of(ls.drop_last()), ls.last())
    }
}

pub open spec fn distro_view(d: DistroInfo) -> OsRelease {
    OsRelease {
        id: d.id@,
        id_like: strings_view(d.id_like@),
        version_id: crate::apply::types::sv(d.version_id),
        pretty_name: crate::apply::types::sv(d.pretty_name),
    }
}

fn strings_of(v: &Vec<Vec<char>>) -> (r: Vec<String>)
    ensures
        strings_view(r@) == views(v@),
{
    let mut r: Vec<String> = Vec::new();
    let mut i: usize = 0;
    while i < v.len()
        invariant
            i <= v.len(),
            strings_view(r@) == views(v@).subrange(0, i as int),
        decreases v.len() - i,
    {
        let s = string_of(&v[i]);
        let ghost old_r = r@;
        r.push(s);
        assert(r@ == old_r.push(s));
        assert(strings_view(r@) =~= strings_view(old_r).push(s@));
        assert(views(v@)[i as int] == v@[i as int]@);
        i = i + 1;
        assert(strings_view(r@) =~= views(v@).subrange(0, i as int));
    }
    assert(views(v@).subrange(0, v.len() as int) == views(v@));
    r
}

/// Parses /etc/os-release: `ID` (default `unknown`), `ID_LIKE` (split on
/// whitespace), `VERSION_ID` and `PRETTY_NAME`, values stripped of quotes;
/// the family is classified from `ID` and `ID_LIKE`.
pub fn parse_os_release(content: &str) -> (d: DistroInfo)
    ensures
        distro_view(d) == os_release_of(lines(content@)),
        d.family == spec_classify(d.id@, strings_view(d.id_like@)),
{
    let c = chars_of(content);
    let ls = lines_of(&c);
    let mut id = owned("unknown");
    let mut id_like: Vec<String> = Vec::new();
    let mut version_id: Option<String> = None;
    let mut pretty_name: Option<String> = None;
    assert(strings_view(id_like@) =~= Seq::<Seq<char>>::empty());
    assert(views(ls@).subrange(0, 0) =~= Seq::<Seq<char>>::empty());
    let mut i: usize = 0;
    while i < ls.len()
        invariant
            i <= ls.len(),
            views(ls@) == lines(c@),
            (OsRelease {
                id: id@,
                id_like: strings_view(id_like@),
                version_id: crate::apply::types::sv(version_id),
                pretty_name: crate::apply::types::sv(pretty_name),
            }) == os_release_of(views(ls@).subrange(0, i as int)),
        decreases ls.len() - i,
    {
        let ghost pre = views(ls@).subrange(0, (i + 1) as int);
        assert(pre.drop_last() == views(ls@).subrange(0, i as int));
        assert(pre.last() == ls@[i as int]@);
        match split_once_of(&ls[i], '=') {
            None => {},
            Some((key, raw)) => {
                let value = unquote_of(&raw);
                if eq_str(&key, "ID") {
                    id = string_of(&value);
                } else if eq_str(&key, "ID_LIKE") {
                    let words = split_ws_of(&value);
                    id_like = strings_of(&words);
                } else if eq_str(&key, "VERSION_ID") {
                    version_id = Some(string_of(&value));
                } else if eq_str(&key, "PRETTY_NAME") {
                    pretty_name = Some(string_of(&value));
                }
            },
        }
        i = i + 1;
    }
    assert(views(ls@).subrange(0, ls.len() as int) == views(ls@));
    let family = classify_distro_fields(id.as_str(), &id_like);
    DistroInfo { id, id_like, family, version_id, pretty_name }
}

// ---------------------------------------------------------------------------
// Immutable layouts and backends
// ---------------------------------------------------------------------------

/// An os-release `VARIANT_ID` line names an ostree-style variant.
pub open spec fn variant_line_immutable(line: Seq<char>) -> bool {
    match split_once(line, '=') {
        Some((key, raw)) => key == "VARIANT_ID"@ && {
            let v = str_lowercase(unquote(raw));
            contains_seq(v, "silverblue"@) || contains_seq(v, "kinoite"@) || contains_seq(
                v,
                "coreos"@,
            ) || contains_seq(v, "ostree"@)
        },
        None => false,
    }
}

/// NixOS, an ostree deployment (`OSTREE_VERSION` set or `rpm-ostree`
/// installed) or an ostree variant in os-release.
pub open spec fn spec_immutable(
    id: Seq<char>,
    ostree_version_set: bool,
    has_rpm_ostree: bool,
    os_release: Option<Seq<char>>,
) -> bool {
    id == "nixos"@ || ostree_version_set || has_rpm_ostree || match os_release {
        Some(c) => has_immutable_variant(c),
        None => false,
    }
}

/// Some line of the os-release text names an ostree-style variant.
pub open spec fn has_immutable_variant(c: Seq<char>) -> bool {
    exists|i: int| 0 <= i < lines(c).len() && variant_line_immutable(#[trigger] lines(c)[i])
}

fn variant_line_immutable_of(line: &[char]) -> (r: bool)
    ensures
        r == variant_line_immutable(line@),
{
    match split_once_of(line, '=') {
        Some((key, raw)) => {
            if !eq_str(&key, "VARIANT_ID") {
                return false;
            }
            let uq = unquote_of(&raw);
            let us = string_of(&uq);
            let lower = to_lowercase(us.as_str());
            let v = chars_of(lower.as_str());
            contains_str(&v, "silverblue") || contains_str(&v, "kinoite") || contains_str(
                &v,
                "coreos",
            ) || contains_str(&v, "ostree")
        },
        None => false,
    }
}

pub fn detect_immutable_os(
    distro: &DistroInfo,
    ostree_version_set: bool,
    has_rpm_ostree: bool,
    os_release: Option<&str>,
) -> (r: bool)
    ensures
        r == spec_immutable(
            distro.id@,
            ostree_version_set,
            has_rpm_ostree,
            match os_release {
                Some(c) => Some(c@),
                None => None,
            },
        ),
{
    let id = chars_of(distro.id.as_str());
    if eq_str(&id, "nixos") || ostree_version_set || has_rpm_ostree {
        return true;
    }
    match os_release {
        None => false,
        Some(content) => {
            let c = chars_of(content);
            let ls = lines_of(&c);
            let mut i: usize = 0;
            while i < ls.len()
                invariant
                    i <= ls.len(),
                    c@ == content@,
                    os_release == Some(content),
                    views(ls@) == lines(c@),
                    forall|j: int| 0 <= j < i ==> !variant_line_immutable(#[trigger] lines(c@)[j]),
                decreases ls.len() - i,
            {
                assert(ls@[i as int]@ == lines(c@)[i as int]);
                if variant_line_immutable_of(&ls[i]) {
                    assert(views(ls@).len() == ls@.len());
                    assert(i < lines(content@).len());
                    assert(variant_line_immutable(lines(content@)[i as int]));
                    assert(exists|k: int|
                        0 <= k < lines(content@).len() && variant_line_immutable(
                            #[trigger] lines(content@)[k],
                        ));
                    assert(has_immutable_variant(content@));
                    return true;
                }
                i = i + 1;
            }
            false
        },
    }
}

/// The backend in use: a zram-generator config wins, then zram-tools'
/// `/etc/default/zramswap`, then a bare `zram0` block device.
pub open spec fn spec_zram_backend(generator_config: bool, zramswap: bool, zram0: bool) -> ZramBackend {
    if generator_config {
        ZramBackend::SystemdZramGenerator
    } else if zramswap {
        ZramBackend::ZramTools
    } else if zram0 {
        ZramBackend::Manual
    } else {
        ZramBackend::Absent
    }
}

pub fn detect_zram_backend(generator_config: bool, zramswap: bool, zram0: bool) -> (b: ZramBackend)
    ensures
        b == spec_zram_backend(generator_config, zramswap, zram0),
{
    if generator_config {
        ZramBackend::SystemdZramGenerator
    } else if zramswap {
        ZramBackend::ZramTools
    } else if zram0 {
        ZramBackend::Manual
    } else {
        ZramBackend::Absent
    }
}

/// Where zram-generator looks for its config, in order of precedence.
pub const ZRAM_GENERATOR_CONFIG_PATHS: [&'static str; 4] = [
    "/run/systemd/zram-generator.conf",
    "/etc/systemd/zram-generator.conf",
    "/usr/local/lib/systemd/zram-generator.conf",
    "/usr/lib/systemd/zram-generator.conf",
];

pub open spec fn config_path(i: int) -> Seq<char> {
    if i == 0 {
        "/run/systemd/zram-generator.conf"@
    } else if i == 1 {
        "/etc/systemd/zram-generator.conf"@
    } else if i == 2 {
        "/usr/local/lib/systemd/zram-generator.conf"@
    } else {
        "/usr/lib/systemd/zram-generator.conf"@
    }
}

/// The first of the four standard config paths that exists.
pub open spec fn spec_find_config(present: Seq<bool>) -> Option<Seq<char>> {
    if present.len() > 0 && present[0] {
        Some(config_path(0))
    } else if present.len() > 1 && present[1] {
        Some(config_path(1))
    } else if present.len() > 2 && present[2] {
        Some(config_path(2))
    } else if present.len() > 3 && present[3] {
        Some(config_path(3))
    } else {
        None
    }
}

/// The zram-generator config in effect: `present[i]` says whether the `i`-th
/// standard path exists.
pub fn find_zram_generator_config(present: &[bool]) -> (r: Option<String>)
    ensures
        crate::apply::types::sv(r) == spec_find_config(present@),
{
    if present.len() > 0 && present[0] {
        Some(owned("/run/systemd/zram-generator.conf"))
    } else if present.len() > 1 && present[1] {
        Some(owned("/etc/systemd/zram-generator.conf"))
    } else if present.len() > 2 && present[2] {
        Some(owned("/usr/local/lib/systemd/zram-generator.conf"))
    } else if present.len() > 3 && present[3] {
        Some(owned("/usr/lib/systemd/zram-generator.conf"))
    } else {
        None
    }
}

pub open spec fn spec_init_system(run_systemd: bool, openrc: bool) -> Seq<char> {
    if run_systemd {
        "systemd"@
    } else if openrc {
        "openrc"@
    } else {
        "unknown"@
    }
}

/// systemd when `/run/systemd/system` exists, else openrc when `/sbin/openrc` does.
pub fn detect_init_system(run_systemd: bool, openrc: bool) -> (s: String)
    ensures
        s@ == spec_init_system(run_systemd, openrc),
{
    if run_systemd {
        owned("systemd")
    } else if openrc {
        owned("openrc")
    } else {
        owned("unknown")
    }
}

/// The root filesystem type from `findmnt -no FSTYPE /` output (absent when
/// empty after trimming).
pub fn parse_root_filesystem(output: &str) -> (r: Option<String>)
    ensures
        crate::apply::types::sv(r) == (if trim(output@).len() == 0 {
            None
        } else {
            Some(trim(output@))
        }),
{
    let c = chars_of(output);
    let t = trim_chars(&c);
    if t.len() == 0 {
        None
    } else {
        Some(string_of(&t))
    }
}

/// What detection learned from the machine besides os-release.
pub struct DetectProbes {
    /// Existence of the four standard zram-generator config paths.
    pub config_paths_present: Vec<bool>,
    pub zramswap_exists: bool,
    pub zram0_exists: bool,
    pub run_systemd_exists: bool,
    pub openrc_exists: bool,
    pub has_zram_generator: bool,
    pub has_pacman: bool,
    pub has_apt: bool,
    pub has_dnf: bool,
    pub has_rpm_ostree: bool,
    pub ostree_version_set: bool,
    /// `findmnt -no FSTYPE /` output when the command succeeded.
    pub root_fs_output: Option<String>,
    pub etc_writable: bool,
}

/// The detection report. `os_release` is the text of /etc/os-release, `None`
/// when it cannot be read, which is an error.
pub fn detect(os_release: Option<&str>, probes: &DetectProbes) -> (r: Result<
    DetectionReport,
    XzramError,
>)
    ensures
        os_release is None <==> r is Err,
        r is Err ==> r->Err_0 is NotFound && r->Err_0->NotFound_0@ == "/etc/os-release"@,
        r matches Ok(d) ==> {
            &&& distro_view(d.distro) == os_release_of(lines(os_release->0@))
            &&& d.distro.family == spec_classify(d.distro.id@, strings_view(d.distro.id_like@))
            &&& d.package_manager == spec_package_manager(
                d.distro.family,
                strings_view(d.distro.id_like@),
                probes.has_pacman,
                probes.has_apt,
                probes.has_dnf,
            )
            &&& d.init_system@ == spec_init_system(probes.run_systemd_exists, probes.openrc_exists)
            &&& crate::apply::types::sv(d.zram_generator_config) == spec_find_config(
                probes.config_paths_present@,
            )
            &&& d.zram_backend == spec_zram_backend(
                spec_find_config(probes.config_paths_present@) is Some,
                probes.zramswap_exists,
                probes.zram0_exists,
            )
            &&& d.zram_generator_installed == (probes.has_zram_generator || spec_find_config(
                probes.config_paths_present@,
            ) is Some)
            &&& crate::apply::types::sv(d.root_filesystem) == match probes.root_fs_output {
                Some(o) => if trim(o@).len() == 0 {
                    None
                } else {
                    Some(trim(o@))
                },
                None => None,
            }
            &&& d.etc_writable == probes.etc_writable
            &&& d.immutable_os == spec_immutable(
                d.distro.id@,
                probes.ostree_version_set,
                probes.has_rpm_ostree,
                Some(os_release->0@),
            )
        },
{
    let content = match os_release {
        Some(c) => c,
        None => return Err(XzramError::NotFound(owned("/etc/os-release"))),
    };
    let distro = parse_os_release(content);
    let family = classify_distro(&distro);
    let package_manager = detect_package_manager(
        &family,
        &distro.id_like,
        probes.has_pacman,
        probes.has_apt,
        probes.has_dnf,
    );
    let config = find_zram_generator_config(&probes.config_paths_present);
    let zram_backend = detect_zram_backend(
        config.is_some(),
        probes.zramswap_exists,
        probes.zram0_exists,
    );
    let immutable_os = detect_immutable_os(
        &distro,
        probes.ostree_version_set,
        probes.has_rpm_ostree,
        Some(content),
    );
    let root_filesystem = match &probes.root_fs_output {
        Some(o) => parse_root_filesystem(o.as_str()),
        None => None,
    };
    let installed = probes.has_zram_generator || config.is_some();
    Ok(
        DetectionReport {
            distro,
            package_manager,
            init_system: detect_init_system(probes.run_systemd_exists, probes.openrc_exists),
            zram_backend,
            zram_generator_installed: installed,
            zram_generator_config: config,
            root_filesystem,
            etc_writable: probes.etc_writable,
            immutable_os,
        },
    )
}

} // verus!
