//! Distribution clamps, the host they are compared with, and the
//! specialisation tag that a qualified variable name carries.

use crate::keys::Arch;
use crate::text::{join2, str_eq};
use libpacstall::pkg::keys::DistroClampError as LibError;
use std::str::FromStr;
use vstd::prelude::*;
use vstd::string::*;

verus! {

/// Why a clamp could not be had.
#[derive(Debug)]
pub enum DistroClampError {
    /// The text holds no `:`.
    NoSplit,
    /// Distribution and version are both `*`.
    DoubleGlob,
    /// The release file of the system could not be read.
    OsReleaseError(String),
    /// The release file names no version.
    EmptyVersion,
    /// The table of known releases could not be read.
    DistroInfo(String),
}

/// A distribution and one of its versions; `*` in either field stands for
/// any.
#[derive(Debug)]
pub struct DistroClamp {
    pub distro: String,
    pub version: String,
    pub codename: Option<String>,
}

/// One release of a distribution, as the system's table of releases lists
/// it: its number, its full name and the short name of its series.
#[derive(Debug)]
pub struct DistroRelease {
    pub codename: String,
    pub series: String,
    pub version: Option<String>,
}

/// The machine that a manifest is evaluated on.
#[derive(Debug)]
pub struct Host {
    pub arch: Arch,
    pub clamp: DistroClamp,
}

/// Index of the first release from `from` on that goes by `name`, as its
/// series or as its codename, or the number of releases where there is
/// none.
pub open spec fn release_index_from(releases: Seq<DistroRelease>, name: Seq<char>, from: int) -> int
    decreases releases.len() - from,
{
    if from < 0 || from >= releases.len() {
        releases.len() as int
    } else if releases[from].series@ == name || releases[from].codename@ == name {
        from
    } else {
        release_index_from(releases, name, from + 1)
    }
}

/// The version that the release called `name` has in `releases`; `name`
/// itself where the table does not list it or gives it no number.
pub open spec fn version_of(releases: Seq<DistroRelease>, name: Seq<char>) -> Seq<char> {
    let k = release_index_from(releases, name, 0);
    if 0 <= k < releases.len() && releases[k].version is Some {
        releases[k].version->0@
    } else {
        name
    }
}

impl Host {
    /// Position of the first release that goes by `name`.
    fn find_release(releases: &Vec<DistroRelease>, name: &str) -> (r: Option<usize>)
        ensures
            r is Some <==> release_index_from(releases@, name@, 0) < releases@.len(),
            r matches Some(k) ==> k == release_index_from(releases@, name@, 0) && k
                < releases@.len(),
    {
        let n: usize = releases.len();
        let mut i: usize = 0;
        while i < n
            invariant
                n == releases@.len(),
                i <= n,
                release_index_from(releases@, name@, 0) == release_index_from(
                    releases@,
                    name@,
                    i as int,
                ),
            decreases n - i,
        {
            if str_eq(releases[i].series.as_str(), name) || str_eq(
                releases[i].codename.as_str(),
                name,
            ) {
                return Some(i);
            }
            i += 1;
        }
        None
    }

    /// The host of architecture `arch` that runs the release `codename`
    /// of `distro`. Its version is looked up in `releases`.
    pub fn of_system(arch: Arch, distro: &str, codename: &str, releases: &Vec<DistroRelease>) -> (r:
        Host)
        ensures
            r.arch == arch,
            r.clamp.distro@ == distro@,
            r.clamp.version@ == version_of(releases@, codename@),
            r.clamp.codename matches Some(c) && c@ == codename@,
    {
        let version = match Self::find_release(releases, codename) {
            Some(k) => match &releases[k].version {
                Some(v) => v.clone(),
                None => codename.to_owned(),
            },
            None => codename.to_owned(),
        };
        Host {
            arch,
            clamp: DistroClamp {
                distro: distro.to_owned(),
                version,
                codename: Some(codename.to_owned()),
            },
        }
    }
}

/// Index of the first `:` in `s`, or the length of `s` where there is none.
pub open spec fn colon_index(s: Seq<char>) -> int
    decreases s.len(),
{
    if s.len() == 0 {
        0
    } else if s[0] == ':' {
        0
    } else {
        1 + colon_index(s.drop_first())
    }
}

/// The text before the first `:`.
pub open spec fn clamp_distro_part(s: Seq<char>) -> Seq<char> {
    s.subrange(0, colon_index(s))
}

/// The text after the first `:`.
pub open spec fn clamp_version_part(s: Seq<char>) -> Seq<char>
    recommends
        colon_index(s) < s.len(),
{
    s.subrange(colon_index(s) + 1, s.len() as int)
}

/// Both fields of the clamp written in `s` are `*`.
pub open spec fn is_double_glob(s: Seq<char>) -> bool {
    clamp_distro_part(s) == "*"@ && clamp_version_part(s) == "*"@
}

/// Parses `s` with `<libpacstall::pkg::keys::DistroClamp as
/// FromStr>::from_str`, which cuts the text at its first `:` and hands both
/// halves to `DistroClamp::new`. It fails with `NoSplit` where there is no
/// `:` and with `DoubleGlob` where both halves are `*`, and on nothing
/// else.
#[verifier::external_body]
fn parse_clamp_text(s: &str) -> (r: Result<DistroClamp, DistroClampError>)
    ensures
        match r {
            Ok(c) => {
                &&& colon_index(s@) < s@.len()
                &&& !is_double_glob(s@)
                &&& c.distro@ == clamp_distro_part(s@)
                &&& c.version@ == clamp_version_part(s@)
                &&& c.codename is None
            },
            Err(DistroClampError::NoSplit) => colon_index(s@) == s@.len(),
            Err(DistroClampError::DoubleGlob) => colon_index(s@) < s@.len() && is_double_glob(s@),
            Err(_) => false,
        },
{
    match libpacstall::pkg::keys::DistroClamp::from_str(s) {
        Ok(c) => Ok(DistroClamp { distro: c.distro().to_string(), version: c.version().to_string(), codename: None }),
        Err(LibError::NoSplit) => Err(DistroClampError::NoSplit),
        Err(LibError::DoubleGlob) => Err(DistroClampError::DoubleGlob),
        Err(LibError::EmptyVersion) => Err(DistroClampError::EmptyVersion),
        Err(LibError::OsReleaseError(e)) => Err(DistroClampError::OsReleaseError(e.to_string())),
        Err(LibError::DistroInfo(e)) => Err(DistroClampError::DistroInfo(e.to_string())),
    }
}

impl DistroClamp {
    /// Same distribution text and same version text; `*` is a character
    /// like any other here.
    pub open spec fn lit_eq_spec(self, other: DistroClamp) -> bool {
        self.distro@ == other.distro@ && self.version@ == other.version@
    }

    /// Whether a specialisation token fits this clamp: the token or the
    /// clamp's version is `*`, or the token is the clamp's version or its
    /// codename.
    pub open spec fn admits_spec(self, token: Seq<char>) -> bool {
        ||| token == "*"@
        ||| self.version@ == "*"@
        ||| self.version@ == token
        ||| (self.codename matches Some(c) && c@ == token)
    }

    /// A clamp of the two fields, with no codename; refuses `*` in both.
    pub fn new(distro: &str, version: &str) -> (r: Result<DistroClamp, DistroClampError>)
        ensures
            match r {
                Ok(c) => {
                    &&& !(distro@ == "*"@ && version@ == "*"@)
                    &&& c.distro@ == distro@
                    &&& c.version@ == version@
                    &&& c.codename is None
                },
                Err(e) => e is DoubleGlob && distro@ == "*"@ && version@ == "*"@,
            },
    {
        if str_eq(distro, "*") && str_eq(version, "*") {
            Err(DistroClampError::DoubleGlob)
        } else {
            Ok(
                DistroClamp {
                    distro: distro.to_owned(),
                    version: version.to_owned(),
                    codename: None,
                },
            )
        }
    }

    /// Reads a clamp written as `distro:version`.
    pub fn parse(s: &str) -> (r: Result<DistroClamp, DistroClampError>)
        ensures
            r is Ok <==> colon_index(s@) < s@.len() && !is_double_glob(s@),
            r matches Ok(c) ==> c.distro@ == clamp_distro_part(s@) && c.version@
                == clamp_version_part(s@) && c.codename is None,
            r matches Err(e) ==> (e is NoSplit <==> colon_index(s@) == s@.len()) && (e
                is DoubleGlob <==> colon_index(s@) < s@.len()) && (e is NoSplit || e is DoubleGlob),
    {
        proof {
            lemma_colon_index_bounds(s@);
        }
        parse_clamp_text(s)
    }

    /// The distribution field.
    pub fn distro(&self) -> (r: &str)
        ensures
            r@ == self.distro@,
    {
        self.distro.as_str()
    }

    /// The version field.
    pub fn version(&self) -> (r: &str)
        ensures
            r@ == self.version@,
    {
        self.version.as_str()
    }

    /// Literal comparison of the two fields.
    pub fn lit_eq(&self, other: &DistroClamp) -> (r: bool)
        ensures
            r == self.lit_eq_spec(*other),
    {
        str_eq(self.distro.as_str(), other.distro.as_str()) && str_eq(
            self.version.as_str(),
            other.version.as_str(),
        )
    }

    /// Whether a specialisation token fits this clamp.
    pub fn admits(&self, token: &str) -> (r: bool)
        ensures
            r == self.admits_spec(token@),
    {
        if str_eq(token, "*") || str_eq(self.version.as_str(), "*") || str_eq(
            self.version.as_str(),
            token,
        ) {
            return true;
        }
        match &self.codename {
            Some(c) => str_eq(c.as_str(), token),
            None => false,
        }
    }

    /// A copy of this clamp.
    pub fn duplicate(&self) -> (r: DistroClamp)
        ensures
            r == *self,
    {
        let codename = match &self.codename {
            Some(c) => Some(c.clone()),
            None => None,
        };
        DistroClamp { distro: self.distro.clone(), version: self.version.clone(), codename }
    }
}

/// The index of the first `:` lies within the text, or equals its length.
pub proof fn lemma_colon_index_bounds(s: Seq<char>)
    ensures
        0 <= colon_index(s) <= s.len(),
        colon_index(s) < s.len() ==> s[colon_index(s)] == ':',
        forall|j: int| 0 <= j < colon_index(s) ==> s[j] != ':',
    decreases s.len(),
{
    if s.len() != 0 && s[0] != ':' {
        let t = s.drop_first();
        lemma_colon_index_bounds(t);
        assert forall|j: int| 0 <= j < colon_index(s) implies s[j] != ':' by {
            if j > 0 {
                assert(s[j] == t[j - 1]);
            }
        }
        if colon_index(s) < s.len() {
            assert(s[colon_index(s)] == t[colon_index(t)]);
        }
    }
}

/// The specialisation that a qualified variable name announces: an
/// architecture, a distribution token, both or neither.
#[derive(Debug)]
pub struct ArchDistro {
    pub arch: Option<Arch>,
    pub distro: Option<String>,
}

impl ArchDistro {
    /// Either field is set.
    pub open spec fn is_enhanced_spec(self) -> bool {
        self.arch is Some || self.distro is Some
    }

    /// Both tags name the same architecture and the same token.
    pub open spec fn same(self, other: ArchDistro) -> bool {
        &&& self.arch is Some == other.arch is Some
        &&& self.arch matches Some(a) ==> a.same(other.arch->0)
        &&& self.distro is Some == other.distro is Some
        &&& self.distro matches Some(d) ==> d@ == other.distro->0@
    }

    /// The tag holds on `host`: a field that is not set holds everywhere,
    /// an architecture holds where the host's is compatible with it, and a
    /// token holds where the host's clamp admits it.
    pub open spec fn applies_spec(self, host: Host) -> bool {
        &&& self.arch matches Some(a) ==> host.arch.compatible_spec(a)
        &&& self.distro matches Some(d) ==> host.clamp.admits_spec(d@)
    }

    /// What the tag adds to a base name, without the leading underscore:
    /// the token, the architecture, or the token and the architecture with
    /// an underscore between.
    pub open spec fn suffix_spec(self) -> Seq<char> {
        match (self.distro, self.arch) {
            (None, None) => Seq::<char>::empty(),
            (None, Some(a)) => a.token_spec(),
            (Some(d), None) => d@,
            (Some(d), Some(a)) => d@ + "_"@ + a.token_spec(),
        }
    }

    /// The tag that specialises nothing.
    pub fn plain() -> (r: ArchDistro)
        ensures
            r.arch is None,
            r.distro is None,
    {
        ArchDistro { arch: None, distro: None }
    }

    /// Whether either field is set.
    pub fn is_enhanced(&self) -> (r: bool)
        ensures
            r == self.is_enhanced_spec(),
    {
        self.arch.is_some() || self.distro.is_some()
    }

    /// Whether both tags name the same architecture and the same token.
    pub fn is_same(&self, other: &ArchDistro) -> (r: bool)
        ensures
            r == self.same(*other),
    {
        let arch_same = match (&self.arch, &other.arch) {
            (Some(a), Some(b)) => a.is_same(b),
            (None, None) => true,
            _ => false,
        };
        let distro_same = match (&self.distro, &other.distro) {
            (Some(a), Some(b)) => str_eq(a.as_str(), b.as_str()),
            (None, None) => true,
            _ => false,
        };
        arch_same && distro_same
    }

    /// Whether the tag holds on `host`.
    pub fn applies(&self, host: &Host) -> (r: bool)
        ensures
            r == self.applies_spec(*host),
    {
        let arch_ok = match &self.arch {
            Some(a) => host.arch.compatible(a),
            None => true,
        };
        let distro_ok = match &self.distro {
            Some(d) => host.clamp.admits(d.as_str()),
            None => true,
        };
        arch_ok && distro_ok
    }

    /// What the tag adds to a base name, without the leading underscore.
    pub fn suffix(&self) -> (r: String)
        ensures
            r@ == self.suffix_spec(),
    {
        match (&self.distro, &self.arch) {
            (None, None) => String::new(),
            (None, Some(a)) => a.token(),
            (Some(d), None) => d.clone(),
            (Some(d), Some(a)) => {
                let head = join2(d.as_str(), "_");
                let tail = a.token();
                join2(head.as_str(), tail.as_str())
            },
        }
    }

    /// A copy of this tag.
    pub fn duplicate(&self) -> (r: ArchDistro)
        ensures
            r == *self,
    {
        let arch = match &self.arch {
            Some(a) => Some(a.duplicate()),
            None => None,
        };
        let distro = match &self.distro {
            Some(d) => Some(d.clone()),
            None => None,
        };
        ArchDistro { arch, distro }
    }
}

} // verus!
