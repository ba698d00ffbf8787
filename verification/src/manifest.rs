//! Builds the description of a manifest from the variables that the
//! manifest has bound.

use crate::clamp::{
    clamp_distro_part, clamp_version_part, colon_index, is_double_glob, DistroClamp,
    DistroClampError, DistroRelease,
};
use crate::environment::Environment;
use crate::keys::{arch_token_of, is_known_arch_token, kind_of, Arch, PackageString};
use crate::numbers::{count_of, is_count, parse_count};
use crate::resolver::{collect_archdistro, resolution, tagged_view};
use crate::srcinfo::{PkgBase, PkgInfo, Priority, SrcInfo};
use crate::text::{has_char, join2, str_has_char};
use crate::value::BashValue;
use std::num::ParseIntError;
use vstd::prelude::*;

verus! {

/// Why a manifest could not be described.
#[derive(Debug)]
pub enum SourceError {
    /// The function that overrides the fields of one package could not be
    /// run.
    MissingPackageFunction { name: String, source: String },
    /// The interpreter failed.
    Brush(String),
    /// `pkgrel` or `epoch` is no number.
    Parse(ParseIntError),
    /// `compatible` or `incompatible` holds one string that is no clamp.
    DistroClamp(DistroClampError),
    /// `maintainer` holds one string that gives no address between angle
    /// brackets; the error carries the string.
    MaintainerParse(String),
}

/// The priority that `libpacstall` reads out of `s`.
pub uninterp spec fn priority_of(s: Seq<char>) -> Priority;

/// Runs `<libpacstall::pkg::keys::Priority as From<String>>::from` on `s`,
/// which compares the text, in lower case, with the names of the
/// priorities. The contract only names the priority that comes back.
#[verifier::external_body]
fn read_priority(s: &str) -> (r: Priority)
    ensures
        r == priority_of(s@),
{
    match libpacstall::pkg::keys::Priority::from(s.to_string()) {
        libpacstall::pkg::keys::Priority::Essential => Priority::Essential,
        libpacstall::pkg::keys::Priority::Required => Priority::Required,
        libpacstall::pkg::keys::Priority::Important => Priority::Important,
        libpacstall::pkg::keys::Priority::Standard => Priority::Standard,
        libpacstall::pkg::keys::Priority::Optional => Priority::Optional,
    }
}

/// A list of strings, each by its characters.
pub open spec fn texts(v: Seq<String>) -> Seq<Seq<char>> {
    Seq::new(v.len(), |i: int| v[i]@)
}

/// The strings that `var` holds; none where it is not bound.
pub open spec fn field_values(env: Environment, var: Seq<char>) -> Seq<Seq<char>> {
    if env.is_bound(var) {
        env.value_of(var).values_spec()
    } else {
        Seq::empty()
    }
}

/// The one string that `var` stands for; `fallback` where it is not
/// bound.
pub open spec fn field_text_or(env: Environment, var: Seq<char>, fallback: Seq<char>) -> Seq<char> {
    if env.is_bound(var) {
        env.value_of(var).decay_spec()
    } else {
        fallback
    }
}

/// The one string that `var` stands for; the empty one where it is not
/// bound.
pub open spec fn field_text(env: Environment, var: Seq<char>) -> Seq<char> {
    field_text_or(env, var, Seq::empty())
}

/// `s` can be read as a clamp.
pub open spec fn parsable(s: Seq<char>) -> bool {
    colon_index(s) < s.len() && !is_double_glob(s)
}

/// The texts among the first `n` of `values` that can be read as clamps,
/// in order.
pub open spec fn kept_upto(values: Seq<Seq<char>>, n: int) -> Seq<Seq<char>>
    decreases n,
{
    if n <= 0 {
        Seq::empty()
    } else if parsable(values[n - 1]) {
        kept_upto(values, n - 1).push(values[n - 1])
    } else {
        kept_upto(values, n - 1)
    }
}

/// The texts that the clamps of `var` are read from: the one string of a
/// scalar, and of an array every string that can be read as a clamp.
pub open spec fn clamp_texts(env: Environment, var: Seq<char>) -> Seq<Seq<char>> {
    if !env.is_bound(var) {
        Seq::empty()
    } else {
        match env.value_of(var) {
            BashValue::String(s) => seq![s@],
            other => kept_upto(other.values_spec(), other.values_spec().len() as int),
        }
    }
}

/// Reading the clamps of `var` succeeds: a scalar must be a clamp, while
/// an array may hold what it likes.
pub open spec fn clamp_field_ok(env: Environment, var: Seq<char>) -> bool {
    env.is_bound(var) ==> match env.value_of(var) {
        BashValue::String(s) => parsable(s@),
        _ => true,
    }
}

/// `e` is what is wrong with the one string of `var`: `NoSplit` where it
/// holds no `:`, and `DoubleGlob` where it holds one.
pub open spec fn clamp_fault(env: Environment, var: Seq<char>, e: DistroClampError) -> bool {
    &&& env.is_bound(var)
    &&& env.value_of(var) matches BashValue::String(s)
    &&& !parsable(s@)
    &&& e is NoSplit <==> colon_index(s@) == s@.len()
    &&& e is DoubleGlob <==> colon_index(s@) < s@.len()
}

/// `s` names a maintainer: it holds a `<`, behind which the address
/// stands.
pub open spec fn names_maintainer(s: Seq<char>) -> bool {
    has_char(s, '<')
}

/// The texts among the first `n` of `values` that name a maintainer, in
/// order.
pub open spec fn maintainers_upto(values: Seq<Seq<char>>, n: int) -> Seq<Seq<char>>
    decreases n,
{
    if n <= 0 {
        Seq::empty()
    } else if names_maintainer(values[n - 1]) {
        maintainers_upto(values, n - 1).push(values[n - 1])
    } else {
        maintainers_upto(values, n - 1)
    }
}

/// The maintainers that `maintainer` lists: the one string of a scalar,
/// and of an array every string that names a maintainer.
pub open spec fn maintainer_texts(env: Environment) -> Seq<Seq<char>> {
    if !env.is_bound("maintainer"@) {
        Seq::empty()
    } else {
        match env.value_of("maintainer"@) {
            BashValue::String(s) => seq![s@],
            other => maintainers_upto(other.values_spec(), other.values_spec().len() as int),
        }
    }
}

/// Reading the maintainers succeeds: a scalar must name a maintainer,
/// while an array may hold what it likes.
pub open spec fn maintainer_field_ok(env: Environment) -> bool {
    env.is_bound("maintainer"@) ==> match env.value_of("maintainer"@) {
        BashValue::String(s) => names_maintainer(s@),
        _ => true,
    }
}

/// `text` is the one string of `maintainer`, and it names no maintainer.
pub open spec fn maintainer_fault(env: Environment, text: Seq<char>) -> bool {
    &&& env.is_bound("maintainer"@)
    &&& env.value_of("maintainer"@) matches BashValue::String(s)
    &&& !names_maintainer(s@)
    &&& text == s@
}

/// `e` is what keeps the shared part of the manifest in `env` from being
/// described: the first of a `pkgrel` that is no number, an `epoch` that
/// is no number, a `compatible` that is no clamp, an `incompatible` that
/// is no clamp and a `maintainer` that names none.
pub open spec fn base_fault(env: Environment, e: SourceError) -> bool {
    if !(is_count(rel_text(env)) && is_count(epoch_text(env))) {
        e is Parse
    } else if !clamp_field_ok(env, "compatible"@) {
        e matches SourceError::DistroClamp(c) && clamp_fault(env, "compatible"@, c)
    } else if !clamp_field_ok(env, "incompatible"@) {
        e matches SourceError::DistroClamp(c) && clamp_fault(env, "incompatible"@, c)
    } else {
        e matches SourceError::MaintainerParse(text) && maintainer_fault(env, text@)
    }
}

/// `list` holds the clamps written in `from`, one for one.
pub open spec fn clamps_read(list: Seq<DistroClamp>, from: Seq<Seq<char>>) -> bool {
    &&& list.len() == from.len()
    &&& forall|i: int|
        0 <= i < list.len() ==> {
            &&& (#[trigger] list[i]).distro@ == clamp_distro_part(from[i])
            &&& list[i].version@ == clamp_version_part(from[i])
            &&& list[i].codename is None
        }
}

/// `list` holds the architectures written in `from`, one for one.
pub open spec fn arches_read(list: Seq<Arch>, from: Seq<Seq<char>>) -> bool {
    &&& list.len() == from.len()
    &&& forall|i: int|
        0 <= i < list.len() ==> {
            &&& (#[trigger] list[i]).token_spec() == arch_token_of(from[i])
            &&& list[i] is Other <==> !is_known_arch_token(arch_token_of(from[i]))
        }
}

/// The shared name of the manifest's packages: `pkgbase`, or `pkgname`
/// where `pkgbase` is not bound.
pub open spec fn base_text(env: Environment) -> Seq<char> {
    field_text_or(env, "pkgbase"@, env.value_of("pkgname"@).decay_spec())
}

/// The text of `pkgrel`, which is `1` where it is not bound.
pub open spec fn rel_text(env: Environment) -> Seq<char> {
    field_text_or(env, "pkgrel"@, "1"@)
}

/// The text of `epoch`, which is `0` where it is not bound.
pub open spec fn epoch_text(env: Environment) -> Seq<char> {
    field_text_or(env, "epoch"@, "0"@)
}

/// The shared part of a manifest can be described: its two numbers are
/// numbers, its two lists of clamps can be read, and so can its
/// maintainers.
pub open spec fn base_ok(env: Environment) -> bool {
    &&& is_count(rel_text(env))
    &&& is_count(epoch_text(env))
    &&& clamp_field_ok(env, "compatible"@)
    &&& clamp_field_ok(env, "incompatible"@)
    &&& maintainer_field_ok(env)
}

/// `base` says of the manifest's shared part what `env` binds.
pub open spec fn describes_base(
    base: PkgBase,
    env: Environment,
    arches: Seq<Arch>,
    releases: Seq<DistroRelease>,
) -> bool {
    &&& base.pkgbase@ == base_text(env)
    &&& base.pkgbase.kind == kind_of(base_text(env))
    &&& base.pkgdesc@ == field_text(env, "pkgdesc"@)
    &&& base.pkgver@ == env.value_of("pkgver"@).decay_spec()
    &&& base.pkgrel == count_of(rel_text(env))
    &&& base.epoch == count_of(epoch_text(env))
    &&& texts(base.mask@) == field_values(env, "mask"@)
    &&& base.kver is Some <==> env.is_bound("kver"@)
    &&& base.kver matches Some(k) ==> k@ == env.value_of("kver"@).decay_spec()
    &&& clamps_read(base.compatible@, clamp_texts(env, "compatible"@))
    &&& clamps_read(base.incompatible@, clamp_texts(env, "incompatible"@))
    &&& texts(base.maintainer@) == maintainer_texts(env)
    &&& tagged_view(base.source@) == resolution(env, "source"@, arches, releases)
    &&& texts(base.noextract@) == field_values(env, "noextract"@)
    &&& texts(base.nosubmodules@) == field_values(env, "nosubmodules"@)
    &&& tagged_view(base.md5sums@) == resolution(env, "md5sums"@, arches, releases)
    &&& tagged_view(base.sha1sums@) == resolution(env, "sha1sums"@, arches, releases)
    &&& tagged_view(base.sha224sums@) == resolution(env, "sha224sums"@, arches, releases)
    &&& tagged_view(base.sha256sums@) == resolution(env, "sha256sums"@, arches, releases)
    &&& tagged_view(base.sha384sums@) == resolution(env, "sha384sums"@, arches, releases)
    &&& tagged_view(base.sha512sums@) == resolution(env, "sha512sums"@, arches, releases)
    &&& tagged_view(base.b2sums@) == resolution(env, "b2sums"@, arches, releases)
    &&& tagged_view(base.makedepends@) == resolution(env, "makedepends"@, arches, releases)
    &&& tagged_view(base.makeconflicts@) == resolution(env, "makeconflicts"@, arches, releases)
}

/// `info` says of the package `name` what `env` binds.
pub open spec fn describes_package(
    info: PkgInfo,
    env: Environment,
    name: Seq<char>,
    arches: Seq<Arch>,
    releases: Seq<DistroRelease>,
) -> bool {
    &&& info.pkgname@ == name
    &&& info.pkgname.kind == kind_of(name)
    &&& info.pkgdesc@ == field_text(env, "pkgdesc"@)
    &&& info.url@ == field_text(env, "url"@)
    &&& info.priority == priority_of(field_text(env, "priority"@))
    &&& arches_read(info.arch@, field_values(env, "arch"@))
    &&& texts(info.license@) == field_values(env, "license"@)
    &&& tagged_view(info.gives@) == resolution(env, "gives"@, arches, releases)
    &&& tagged_view(info.depends@) == resolution(env, "depends"@, arches, releases)
    &&& tagged_view(info.checkdepends@) == resolution(env, "checkdepends"@, arches, releases)
    &&& tagged_view(info.optdepends@) == resolution(env, "optdepends"@, arches, releases)
    &&& tagged_view(info.checkconflicts@) == resolution(env, "checkconflicts"@, arches, releases)
    &&& tagged_view(info.conflicts@) == resolution(env, "conflicts"@, arches, releases)
    &&& tagged_view(info.provides@) == resolution(env, "provides"@, arches, releases)
    &&& tagged_view(info.breaks@) == resolution(env, "breaks"@, arches, releases)
    &&& tagged_view(info.replaces@) == resolution(env, "replaces"@, arches, releases)
    &&& tagged_view(info.enhances@) == resolution(env, "enhances"@, arches, releases)
    &&& tagged_view(info.recommends@) == resolution(env, "recommends"@, arches, releases)
    &&& tagged_view(info.suggests@) == resolution(env, "suggests"@, arches, releases)
    &&& texts(info.backup@) == field_values(env, "backup"@)
    &&& texts(info.repology@) == field_values(env, "repology"@)
}

/// The environment that the package in place `i` is described from: the
/// manifest's own where it has one package, the package's own where it
/// has several.
pub open spec fn scope_of(env: Environment, children: Seq<Environment>, i: int) -> Environment {
    if field_values(env, "pkgname"@).len() > 1 {
        children[i]
    } else {
        env
    }
}

/// The strings that `var` holds, in order; none where it is not bound.
pub fn get_env_var_as_array(env: &Environment, var: &str) -> (r: Vec<String>)
    ensures
        texts(r@) == field_values(*env, var@),
{
    match env.get(var) {
        Some(value) => {
            let out = value.values();
            assert(texts(out@) =~= field_values(*env, var@));
            out
        },
        None => {
            let out: Vec<String> = Vec::new();
            assert(texts(out@) =~= field_values(*env, var@));
            out
        },
    }
}

/// The one string that `var` stands for; the empty one where it is not
/// bound.
pub fn get_env_var_as_string(env: &Environment, var: &str) -> (r: String)
    ensures
        r@ == field_text(*env, var@),
{
    match env.get_str(var) {
        Some(string) => string,
        None => String::new(),
    }
}

/// The name of the function that overrides the fields of the package
/// `child`.
pub fn override_function(child: &str) -> (r: String)
    ensures
        r@ == "package_"@ + child@,
{
    join2("package_", child)
}

/// Reads the clamps of `var`. The one string of a scalar must be a clamp;
/// of an array, the strings that are no clamps are left out.
pub fn clamp_list(env: &Environment, var: &str) -> (r: Result<Vec<DistroClamp>, DistroClampError>)
    ensures
        r is Ok <==> clamp_field_ok(*env, var@),
        r matches Ok(list) ==> clamps_read(list@, clamp_texts(*env, var@)),
        r matches Err(e) ==> clamp_fault(*env, var@, e),
{
    let mut out: Vec<DistroClamp> = Vec::new();
    match env.get(var) {
        None => Ok(out),
        Some(BashValue::String(s)) => {
            match DistroClamp::parse(s.as_str()) {
                Ok(c) => {
                    out.push(c);
                    Ok(out)
                },
                Err(e) => Err(e),
            }
        },
        Some(value) => {
            let values = value.values();
            let n: usize = values.len();
            let ghost all = value.values_spec();
            let mut i: usize = 0;
            while i < n
                invariant
                    n == values@.len(),
                    n == all.len(),
                    i <= n,
                    forall|j: int| 0 <= j < n ==> (#[trigger] values@[j])@ == all[j],
                    clamps_read(out@, kept_upto(all, i as int)),
                decreases n - i,
            {
                match DistroClamp::parse(values[i].as_str()) {
                    Ok(c) => {
                        out.push(c);
                    },
                    Err(_) => {},
                }
                i += 1;
            }
            Ok(out)
        },
    }
}

/// Reads the maintainers that `maintainer` lists, each as it is written.
/// The one string of a scalar must name a maintainer, else it comes back
/// as the error; of an array, the strings that name none are left out.
pub fn maintainer_list(env: &Environment) -> (r: Result<Vec<String>, String>)
    ensures
        r is Ok <==> maintainer_field_ok(*env),
        r matches Ok(list) ==> texts(list@) == maintainer_texts(*env),
        r matches Err(text) ==> maintainer_fault(*env, text@),
{
    let mut out: Vec<String> = Vec::new();
    match env.get("maintainer") {
        None => {
            assert(texts(out@) =~= maintainer_texts(*env));
            Ok(out)
        },
        Some(BashValue::String(s)) => {
            if str_has_char(s.as_str(), '<') {
                out.push(s.string.clone());
                assert(texts(out@) =~= maintainer_texts(*env));
                Ok(out)
            } else {
                Err(s.string.clone())
            }
        },
        Some(value) => {
            let values = value.values();
            let n: usize = values.len();
            let ghost all = value.values_spec();
            let mut i: usize = 0;
            assert(texts(out@) =~= maintainers_upto(all, 0));
            while i < n
                invariant
                    n == values@.len(),
                    n == all.len(),
                    i <= n,
                    forall|j: int| 0 <= j < n ==> (#[trigger] values@[j])@ == all[j],
                    texts(out@) =~= maintainers_upto(all, i as int),
                decreases n - i,
            {
                if str_has_char(values[i].as_str(), '<') {
                    let ghost before = out@;
                    out.push(values[i].clone());
                    assert(texts(out@) =~= texts(before).push(all[i as int]));
                }
                i += 1;
            }
            Ok(out)
        },
    }
}

/// Reads the architectures that `arch` lists.
pub fn arch_list(env: &Environment) -> (r: Vec<Arch>)
    ensures
        arches_read(r@, field_values(*env, "arch"@)),
{
    let values = get_env_var_as_array(env, "arch");
    let ghost all = field_values(*env, "arch"@);
    let n: usize = values.len();
    let mut out: Vec<Arch> = Vec::new();
    let mut i: usize = 0;
    assert(texts(values@).len() == values@.len());
    while i < n
        invariant
            n == values@.len(),
            n == all.len(),
            i <= n,
            texts(values@) == all,
            out@.len() == i,
            forall|j: int|
                0 <= j < i ==> {
                    &&& (#[trigger] out@[j]).token_spec() == arch_token_of(all[j])
                    &&& out@[j] is Other <==> !is_known_arch_token(arch_token_of(all[j]))
                },
        decreases n - i,
    {
        assert(texts(values@)[i as int] == values@[i as int]@);
        out.push(Arch::parse(values[i].as_str()));
        i += 1;
    }
    out
}

/// Describes the shared part of the manifest that `env` holds. The
/// manifest must bind `pkgname` and `pkgver`.
pub fn base_from(env: &Environment, arches: &Vec<Arch>, releases: &Vec<DistroRelease>) -> (r:
    Result<PkgBase, SourceError>)
    requires
        env.is_bound("pkgname"@),
        env.is_bound("pkgver"@),
    ensures
        r is Ok <==> base_ok(*env),
        r matches Ok(base) ==> describes_base(base, *env, arches@, releases@),
        r matches Err(e) ==> base_fault(*env, e),
{
    let pkgbase_text = match env.get_str("pkgbase") {
        Some(s) => s,
        None => match env.get_str("pkgname") {
            Some(s) => s,
            None => String::new(),
        },
    };
    let pkgver = match env.get_str("pkgver") {
        Some(s) => s,
        None => String::new(),
    };
    let rel = match env.get_str("pkgrel") {
        Some(s) => s,
        None => "1".to_owned(),
    };
    let pkgrel: usize = match parse_count(rel.as_str()) {
        Ok(n) => n,
        Err(e) => {
            return Err(SourceError::Parse(e));
        },
    };
    let epoch_string = match env.get_str("epoch") {
        Some(s) => s,
        None => "0".to_owned(),
    };
    let epoch: usize = match parse_count(epoch_string.as_str()) {
        Ok(n) => n,
        Err(e) => {
            return Err(SourceError::Parse(e));
        },
    };
    let mask = get_env_var_as_array(env, "mask");
    let compatible = match clamp_list(env, "compatible") {
        Ok(list) => list,
        Err(e) => {
            return Err(SourceError::DistroClamp(e));
        },
    };
    let incompatible = match clamp_list(env, "incompatible") {
        Ok(list) => list,
        Err(e) => {
            return Err(SourceError::DistroClamp(e));
        },
    };
    let maintainer = match maintainer_list(env) {
        Ok(list) => list,
        Err(text) => {
            return Err(SourceError::MaintainerParse(text));
        },
    };
    Ok(
        PkgBase {
            pkgbase: PackageString::parse(pkgbase_text.as_str()),
            pkgdesc: get_env_var_as_string(env, "pkgdesc"),
            pkgver,
            pkgrel,
            epoch,
            mask,
            kver: env.get_str("kver"),
            compatible,
            incompatible,
            maintainer,
            source: collect_archdistro(env, "source", arches, releases),
            noextract: get_env_var_as_array(env, "noextract"),
            nosubmodules: get_env_var_as_array(env, "nosubmodules"),
            md5sums: collect_archdistro(env, "md5sums", arches, releases),
            sha1sums: collect_archdistro(env, "sha1sums", arches, releases),
            sha224sums: collect_archdistro(env, "sha224sums", arches, releases),
            sha256sums: collect_archdistro(env, "sha256sums", arches, releases),
            sha384sums: collect_archdistro(env, "sha384sums", arches, releases),
            sha512sums: collect_archdistro(env, "sha512sums", arches, releases),
            b2sums: collect_archdistro(env, "b2sums", arches, releases),
            makedepends: collect_archdistro(env, "makedepends", arches, releases),
            makeconflicts: collect_archdistro(env, "makeconflicts", arches, releases),
        },
    )
}

/// Describes the package `pkgname` from what `env` binds.
pub fn default_pkginfo(
    env: &Environment,
    pkgname: &str,
    arches: &Vec<Arch>,
    releases: &Vec<DistroRelease>,
) -> (r: PkgInfo)
    ensures
        describes_package(r, *env, pkgname@, arches@, releases@),
{
    let priority_text = get_env_var_as_string(env, "priority");
    PkgInfo {
        pkgname: PackageString::parse(pkgname),
        pkgdesc: get_env_var_as_string(env, "pkgdesc"),
        url: get_env_var_as_string(env, "url"),
        priority: read_priority(priority_text.as_str()),
        arch: arch_list(env),
        license: get_env_var_as_array(env, "license"),
        gives: collect_archdistro(env, "gives", arches, releases),
        depends: collect_archdistro(env, "depends", arches, releases),
        checkdepends: collect_archdistro(env, "checkdepends", arches, releases),
        optdepends: collect_archdistro(env, "optdepends", arches, releases),
        checkconflicts: collect_archdistro(env, "checkconflicts", arches, releases),
        conflicts: collect_archdistro(env, "conflicts", arches, releases),
        provides: collect_archdistro(env, "provides", arches, releases),
        breaks: collect_archdistro(env, "breaks", arches, releases),
        replaces: collect_archdistro(env, "replaces", arches, releases),
        enhances: collect_archdistro(env, "enhances", arches, releases),
        recommends: collect_archdistro(env, "recommends", arches, releases),
        suggests: collect_archdistro(env, "suggests", arches, releases),
        backup: get_env_var_as_array(env, "backup"),
        repology: get_env_var_as_array(env, "repology"),
    }
}

/// Describes the manifest that `env` holds. Where `pkgname` lists several
/// packages, each is described from its own environment in `children`,
/// in which its override function has run; one package alone is
/// described from `env` itself.
pub fn assemble(
    env: &Environment,
    children: &Vec<Environment>,
    arches: &Vec<Arch>,
    releases: &Vec<DistroRelease>,
) -> (r: Result<SrcInfo, SourceError>)
    requires
        env.is_bound("pkgname"@),
        env.is_bound("pkgver"@),
        field_values(*env, "pkgname"@).len() >= 1,
        field_values(*env, "pkgname"@).len() > 1 ==> children@.len() == field_values(
            *env,
            "pkgname"@,
        ).len(),
    ensures
        r is Ok <==> base_ok(*env),
        r matches Ok(info) ==> {
            &&& info.wf()
            &&& describes_base(info.pkgbase, *env, arches@, releases@)
            &&& info.packages@.len() == field_values(*env, "pkgname"@).len()
            &&& forall|i: int|
                0 <= i < info.packages@.len() ==> describes_package(
                    #[trigger] info.packages@[i],
                    scope_of(*env, children@, i),
                    field_values(*env, "pkgname"@)[i],
                    arches@,
                    releases@,
                )
        },
        r matches Err(e) ==> base_fault(*env, e),
{
    let pkgbase = match base_from(env, arches, releases) {
        Ok(base) => base,
        Err(e) => {
            return Err(e);
        },
    };
    let names = get_env_var_as_array(env, "pkgname");
    let ghost all = field_values(*env, "pkgname"@);
    assert(texts(names@).len() == names@.len());
    let n: usize = names.len();
    let mut packages: Vec<PkgInfo> = Vec::new();
    if n > 1 {
        let mut i: usize = 0;
        while i < n
            invariant
                n == names@.len(),
                n == all.len(),
                n > 1,
                n == children@.len(),
                all == field_values(*env, "pkgname"@),
                texts(names@) == all,
                i <= n,
                packages@.len() == i,
                forall|j: int|
                    0 <= j < i ==> describes_package(
                        #[trigger] packages@[j],
                        children@[j],
                        all[j],
                        arches@,
                        releases@,
                    ),
            decreases n - i,
        {
            assert(texts(names@)[i as int] == names@[i as int]@);
            packages.push(default_pkginfo(&children[i], names[i].as_str(), arches, releases));
            i += 1;
        }
    } else {
        assert(texts(names@)[0] == names@[0]@);
        packages.push(default_pkginfo(env, names[0].as_str(), arches, releases));
    }
    Ok(SrcInfo { pkgbase, packages })
}

/// A package whose own environment binds what the manifest's binds is
/// described as the manifest alone would describe it: what another
/// package's override function has bound does not reach it.
pub proof fn lemma_untouched_package_keeps_defaults(
    info: PkgInfo,
    env: Environment,
    own: Environment,
    name: Seq<char>,
    arches: Seq<Arch>,
    releases: Seq<DistroRelease>,
)
    requires
        own.same_bindings(env),
        describes_package(info, own, name, arches, releases),
    ensures
        describes_package(info, env, name, arches, releases),
{
    lemma_same_bindings_same_fields(own, env, "pkgdesc"@, arches, releases);
    lemma_same_bindings_same_fields(own, env, "url"@, arches, releases);
    lemma_same_bindings_same_fields(own, env, "priority"@, arches, releases);
    lemma_same_bindings_same_fields(own, env, "arch"@, arches, releases);
    lemma_same_bindings_same_fields(own, env, "license"@, arches, releases);
    lemma_same_bindings_same_fields(own, env, "gives"@, arches, releases);
    lemma_same_bindings_same_fields(own, env, "depends"@, arches, releases);
    lemma_same_bindings_same_fields(own, env, "checkdepends"@, arches, releases);
    lemma_same_bindings_same_fields(own, env, "optdepends"@, arches, releases);
    lemma_same_bindings_same_fields(own, env, "checkconflicts"@, arches, releases);
    lemma_same_bindings_same_fields(own, env, "conflicts"@, arches, releases);
    lemma_same_bindings_same_fields(own, env, "provides"@, arches, releases);
    lemma_same_bindings_same_fields(own, env, "breaks"@, arches, releases);
    lemma_same_bindings_same_fields(own, env, "replaces"@, arches, releases);
    lemma_same_bindings_same_fields(own, env, "enhances"@, arches, releases);
    lemma_same_bindings_same_fields(own, env, "recommends"@, arches, releases);
    lemma_same_bindings_same_fields(own, env, "suggests"@, arches, releases);
    lemma_same_bindings_same_fields(own, env, "backup"@, arches, releases);
    lemma_same_bindings_same_fields(own, env, "repology"@, arches, releases);
}

/// Two environments with the same bindings give every field the same
/// strings, the same one string and the same resolution.
pub proof fn lemma_same_bindings_same_fields(
    a: Environment,
    b: Environment,
    var: Seq<char>,
    arches: Seq<Arch>,
    releases: Seq<DistroRelease>,
)
    requires
        a.same_bindings(b),
    ensures
        field_values(a, var) == field_values(b, var),
        field_text(a, var) == field_text(b, var),
        resolution(a, var, arches, releases) == resolution(b, var, arches, releases),
{
    crate::environment::lemma_same_bindings_same_slot(a, b, var);
    let tags = crate::resolver::candidate_tags(arches, crate::resolver::tokens_of(releases));
    crate::resolver::lemma_same_bindings_same_resolution(a, b, var, tags, tags.len() as int);
}

} // verus!
