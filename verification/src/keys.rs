//! Architectures, distribution clamps, package identifiers and the other
//! small vocabularies that a manifest is written in.

use crate::text::{ends_with, join2, str_eq};
use std::str::FromStr;
use vstd::prelude::*;
use vstd::string::*;

verus! {

/// A CPU architecture, in Debian or Arch spelling.
#[derive(Debug)]
pub enum Arch {
    Any,
    All,
    Amd64,
    Arm64,
    Armel,
    Armhf,
    I386,
    Ppc64el,
    Riscv64,
    S390x,
    X86_64,
    Aarch64,
    Arm,
    Armv7h,
    I686,
    Other(String),
}

/// What the architecture parser of `libpacstall` makes of `s`, written back
/// as text: the canonical token of the architecture that `s` names.
pub uninterp spec fn arch_token_of(s: Seq<char>) -> Seq<char>;

/// Runs `<libpacstall::pkg::keys::Arch as From<String>>::from` on `s` and
/// prints the result with its `Display`. The contract only names the text
/// that comes back; it is a function of `s` alone.
#[verifier::external_body]
fn canonical_arch_token(s: &str) -> (r: String)
    ensures
        r@ == arch_token_of(s@),
{
    libpacstall::pkg::keys::Arch::from(s.to_string()).to_string()
}

/// Asks `libpacstall::pkg::keys::Arch::host` for the architecture that
/// this program was built for, and prints it with its `Display`. Which
/// token comes back depends on the machine, so nothing is promised of it.
#[verifier::external_body]
fn host_arch_token() -> (r: String) {
    libpacstall::pkg::keys::Arch::host().to_string()
}

/// Whether `t` is the token of one of the architectures that have a name.
pub open spec fn is_known_arch_token(t: Seq<char>) -> bool {
    t == "any"@ || t == "all"@ || t == "amd64"@ || t == "arm64"@ || t == "armel"@ || t
        == "armhf"@ || t == "i386"@ || t == "ppc64el"@ || t == "riscv64"@ || t == "s390x"@ || t
        == "x86_64"@ || t == "aarch64"@ || t == "arm"@ || t == "armv7h"@ || t == "i686"@
}

impl Arch {
    /// The lowercase token that stands for this architecture in a qualified
    /// variable name.
    pub open spec fn token_spec(self) -> Seq<char> {
        match self {
            Arch::Any => "any"@,
            Arch::All => "all"@,
            Arch::Amd64 => "amd64"@,
            Arch::Arm64 => "arm64"@,
            Arch::Armel => "armel"@,
            Arch::Armhf => "armhf"@,
            Arch::I386 => "i386"@,
            Arch::Ppc64el => "ppc64el"@,
            Arch::Riscv64 => "riscv64"@,
            Arch::S390x => "s390x"@,
            Arch::X86_64 => "x86_64"@,
            Arch::Aarch64 => "aarch64"@,
            Arch::Arm => "arm"@,
            Arch::Armv7h => "armv7h"@,
            Arch::I686 => "i686"@,
            Arch::Other(s) => s@,
        }
    }

    /// Position of the variant in declaration order.
    pub open spec fn ordinal(self) -> int {
        match self {
            Arch::Any => 0,
            Arch::All => 1,
            Arch::Amd64 => 2,
            Arch::Arm64 => 3,
            Arch::Armel => 4,
            Arch::Armhf => 5,
            Arch::I386 => 6,
            Arch::Ppc64el => 7,
            Arch::Riscv64 => 8,
            Arch::S390x => 9,
            Arch::X86_64 => 10,
            Arch::Aarch64 => 11,
            Arch::Arm => 12,
            Arch::Armv7h => 13,
            Arch::I686 => 14,
            Arch::Other(_) => 15,
        }
    }

    /// The same variant, and for `Other` the same text.
    pub open spec fn same(self, other: Arch) -> bool {
        self.ordinal() == other.ordinal() && (self is Other ==> self.token_spec()
            == other.token_spec())
    }

    /// Two architectures on which the same binaries run: equal ones, and
    /// the Debian and Arch spellings of the same machine.
    pub open spec fn compatible_spec(self, other: Arch) -> bool {
        let a = self.ordinal();
        let b = other.ordinal();
        ||| self.same(other)
        ||| (a == 3 && b == 11)
        ||| (a == 11 && b == 3)
        ||| (a == 4 && b == 12)
        ||| (a == 12 && b == 4)
        ||| (a == 2 && b == 10)
        ||| (a == 10 && b == 2)
        ||| (a == 13 && b == 5)
        ||| (a == 5 && b == 13)
        ||| (a == 6 && b == 14)
        ||| (a == 14 && b == 6)
    }

    /// Position of the variant in declaration order.
    pub fn index(&self) -> (r: u8)
        ensures
            r == self.ordinal(),
    {
        match self {
            Arch::Any => 0,
            Arch::All => 1,
            Arch::Amd64 => 2,
            Arch::Arm64 => 3,
            Arch::Armel => 4,
            Arch::Armhf => 5,
            Arch::I386 => 6,
            Arch::Ppc64el => 7,
            Arch::Riscv64 => 8,
            Arch::S390x => 9,
            Arch::X86_64 => 10,
            Arch::Aarch64 => 11,
            Arch::Arm => 12,
            Arch::Armv7h => 13,
            Arch::I686 => 14,
            Arch::Other(_) => 15,
        }
    }

    /// The lowercase token of this architecture.
    pub fn token(&self) -> (r: String)
        ensures
            r@ == self.token_spec(),
    {
        match self {
            Arch::Any => "any".to_owned(),
            Arch::All => "all".to_owned(),
            Arch::Amd64 => "amd64".to_owned(),
            Arch::Arm64 => "arm64".to_owned(),
            Arch::Armel => "armel".to_owned(),
            Arch::Armhf => "armhf".to_owned(),
            Arch::I386 => "i386".to_owned(),
            Arch::Ppc64el => "ppc64el".to_owned(),
            Arch::Riscv64 => "riscv64".to_owned(),
            Arch::S390x => "s390x".to_owned(),
            Arch::X86_64 => "x86_64".to_owned(),
            Arch::Aarch64 => "aarch64".to_owned(),
            Arch::Arm => "arm".to_owned(),
            Arch::Armv7h => "armv7h".to_owned(),
            Arch::I686 => "i686".to_owned(),
            Arch::Other(s) => s.clone(),
        }
    }

    /// A copy of this architecture.
    pub fn duplicate(&self) -> (r: Arch)
        ensures
            r == *self,
    {
        match self {
            Arch::Any => Arch::Any,
            Arch::All => Arch::All,
            Arch::Amd64 => Arch::Amd64,
            Arch::Arm64 => Arch::Arm64,
            Arch::Armel => Arch::Armel,
            Arch::Armhf => Arch::Armhf,
            Arch::I386 => Arch::I386,
            Arch::Ppc64el => Arch::Ppc64el,
            Arch::Riscv64 => Arch::Riscv64,
            Arch::S390x => Arch::S390x,
            Arch::X86_64 => Arch::X86_64,
            Arch::Aarch64 => Arch::Aarch64,
            Arch::Arm => Arch::Arm,
            Arch::Armv7h => Arch::Armv7h,
            Arch::I686 => Arch::I686,
            Arch::Other(s) => Arch::Other(s.clone()),
        }
    }

    /// Whether the two are the same variant, with the same text for `Other`.
    pub fn is_same(&self, other: &Arch) -> (r: bool)
        ensures
            r == self.same(*other),
    {
        match (self, other) {
            (Arch::Other(a), Arch::Other(b)) => str_eq(a.as_str(), b.as_str()),
            _ => self.index() == other.index(),
        }
    }

    /// Whether binaries for `other` run on `self`.
    pub fn compatible(&self, other: &Arch) -> (r: bool)
        ensures
            r == self.compatible_spec(*other),
    {
        let a: u8 = self.index();
        let b: u8 = other.index();
        self.is_same(other) || (a == 3 && b == 11) || (a == 11 && b == 3) || (a == 4 && b == 12)
            || (a == 12 && b == 4) || (a == 2 && b == 10) || (a == 10 && b == 2) || (a == 13 && b
            == 5) || (a == 5 && b == 13) || (a == 6 && b == 14) || (a == 14 && b == 6)
    }

    /// The architecture whose canonical token is `token`; an unknown token
    /// is kept as `Other`.
    pub fn from_token(token: &str) -> (r: Arch)
        ensures
            r.token_spec() == token@,
            r is Other <==> !is_known_arch_token(token@),
    {
        if str_eq(token, "any") {
            Arch::Any
        } else if str_eq(token, "all") {
            Arch::All
        } else if str_eq(token, "amd64") {
            Arch::Amd64
        } else if str_eq(token, "arm64") {
            Arch::Arm64
        } else if str_eq(token, "armel") {
            Arch::Armel
        } else if str_eq(token, "armhf") {
            Arch::Armhf
        } else if str_eq(token, "i386") {
            Arch::I386
        } else if str_eq(token, "ppc64el") {
            Arch::Ppc64el
        } else if str_eq(token, "riscv64") {
            Arch::Riscv64
        } else if str_eq(token, "s390x") {
            Arch::S390x
        } else if str_eq(token, "x86_64") {
            Arch::X86_64
        } else if str_eq(token, "aarch64") {
            Arch::Aarch64
        } else if str_eq(token, "arm") {
            Arch::Arm
        } else if str_eq(token, "armv7h") {
            Arch::Armv7h
        } else if str_eq(token, "i686") {
            Arch::I686
        } else {
            Arch::Other(token.to_owned())
        }
    }

    /// The architecture of the machine that this program runs on. A
    /// machine that has no name here is `Other`, with the name that the
    /// machine goes by.
    pub fn host() -> (r: Arch)
        ensures
            r is Other <==> !is_known_arch_token(r.token_spec()),
    {
        let token = host_arch_token();
        Arch::from_token(token.as_str())
    }

    /// Reads an architecture as a manifest spells it, in any letter case.
    pub fn parse(s: &str) -> (r: Arch)
        ensures
            r.token_spec() == arch_token_of(s@),
            r is Other <==> !is_known_arch_token(arch_token_of(s@)),
    {
        let token = canonical_arch_token(s);
        Arch::from_token(token.as_str())
    }

    /// Every named architecture in declaration order, closed by `Other`
    /// with an empty text.
    pub fn all() -> (r: Vec<Arch>)
        ensures
            r@.len() == 16,
            forall|i: int| 0 <= i < 16 ==> (#[trigger] r@[i]).ordinal() == i,
            r@[15].token_spec() == Seq::<char>::empty(),
    {
        let mut out: Vec<Arch> = Vec::new();
        out.push(Arch::Any);
        out.push(Arch::All);
        out.push(Arch::Amd64);
        out.push(Arch::Arm64);
        out.push(Arch::Armel);
        out.push(Arch::Armhf);
        out.push(Arch::I386);
        out.push(Arch::Ppc64el);
        out.push(Arch::Riscv64);
        out.push(Arch::S390x);
        out.push(Arch::X86_64);
        out.push(Arch::Aarch64);
        out.push(Arch::Arm);
        out.push(Arch::Armv7h);
        out.push(Arch::I686);
        out.push(Arch::Other(String::new()));
        out
    }
}

/// The digest algorithms a manifest may give checksums in.
#[derive(Debug, Clone, Copy, PartialEq, Eq, Structural)]
pub enum HashSumType {
    Sha256,
    Sha512,
    Sha384,
    Sha224,
    Sha1,
    Md5,
    B2,
}

impl HashSumType {
    /// Length of a digest of this algorithm, in hexadecimal characters.
    pub open spec fn size_spec(self) -> nat {
        match self {
            HashSumType::B2 => 128,
            HashSumType::Sha512 => 128,
            HashSumType::Sha384 => 96,
            HashSumType::Sha256 => 64,
            HashSumType::Sha224 => 56,
            HashSumType::Sha1 => 40,
            HashSumType::Md5 => 32,
        }
    }

    /// Length of a digest of this algorithm, in hexadecimal characters.
    pub fn size(&self) -> (r: usize)
        ensures
            r == self.size_spec(),
    {
        match self {
            HashSumType::B2 => 128,
            HashSumType::Sha512 => 128,
            HashSumType::Sha384 => 96,
            HashSumType::Sha256 => 64,
            HashSumType::Sha224 => 56,
            HashSumType::Sha1 => 40,
            HashSumType::Md5 => 32,
        }
    }
}

/// How a package is delivered, read off the suffix of its identifier.
#[derive(Debug, Clone, Copy, PartialEq, Eq, Structural)]
pub enum PackageKind {
    Source,
    Deb,
    Git,
    AppImage,
    Binary,
}

impl PackageKind {
    /// The suffix that marks this kind in an identifier; empty for `Source`.
    pub open spec fn suffix_spec(self) -> Seq<char> {
        match self {
            PackageKind::Source => Seq::<char>::empty(),
            PackageKind::Deb => "-deb"@,
            PackageKind::Git => "-git"@,
            PackageKind::AppImage => "-app"@,
            PackageKind::Binary => "-bin"@,
        }
    }

    /// The suffix that marks this kind in an identifier; empty for `Source`.
    pub fn suffix(&self) -> (r: &'static str)
        ensures
            r@ == self.suffix_spec(),
    {
        match self {
            PackageKind::Source => {
                proof {
                    reveal_strlit("");
                    assert(""@ =~= Seq::<char>::empty());
                }
                ""
            },
            PackageKind::Deb => "-deb",
            PackageKind::Git => "-git",
            PackageKind::AppImage => "-app",
            PackageKind::Binary => "-bin",
        }
    }
}

/// The kind that an identifier's suffix announces: the first of `-deb`,
/// `-git`, `-app`, `-bin` that `s` ends with, else `Source`.
pub open spec fn kind_of(s: Seq<char>) -> PackageKind {
    if ends_with(s, "-deb"@) {
        PackageKind::Deb
    } else if ends_with(s, "-git"@) {
        PackageKind::Git
    } else if ends_with(s, "-app"@) {
        PackageKind::AppImage
    } else if ends_with(s, "-bin"@) {
        PackageKind::Binary
    } else {
        PackageKind::Source
    }
}

/// The identifier without the suffix of its kind.
pub open spec fn stem_of(s: Seq<char>) -> Seq<char> {
    s.subrange(0, s.len() - kind_of(s).suffix_spec().len())
}

/// Parses `s` with `<libpacstall::pkg::keys::PackageString as
/// FromStr>::from_str` and takes it apart with `PackageString::split`. The
/// parser tries the suffixes `-deb`, `-git`, `-app`, `-bin` in that order,
/// strips the first that fits and falls back to `Source` with the whole
/// text; it cannot fail.
#[verifier::external_body]
fn split_identifier(s: &str) -> (r: (String, PackageKind))
    ensures
        r.0@ == stem_of(s@),
        r.1 == kind_of(s@),
{
    let parsed = libpacstall::pkg::keys::PackageString::from_str(s).unwrap_or_default();
    match parsed.split() {
        (n, libpacstall::pkg::keys::PackageKind::Source) => (n.to_string(), PackageKind::Source),
        (n, libpacstall::pkg::keys::PackageKind::Deb) => (n.to_string(), PackageKind::Deb),
        (n, libpacstall::pkg::keys::PackageKind::Git) => (n.to_string(), PackageKind::Git),
        (n, libpacstall::pkg::keys::PackageKind::AppImage) => (n.to_string(), PackageKind::AppImage),
        (n, libpacstall::pkg::keys::PackageKind::Binary) => (n.to_string(), PackageKind::Binary),
    }
}

/// A package identifier: a stem and the kind its suffix announced.
#[derive(Debug)]
pub struct PackageString {
    pub stem: String,
    pub kind: PackageKind,
}

impl View for PackageString {
    type V = Seq<char>;

    /// The identifier as written: the stem followed by the kind's suffix.
    open spec fn view(&self) -> Seq<char> {
        self.stem@ + self.kind.suffix_spec()
    }
}

impl PackageString {
    /// Reads an identifier, telling its kind by its suffix.
    pub fn parse(s: &str) -> (r: PackageString)
        ensures
            r.stem@ == stem_of(s@),
            r.kind == kind_of(s@),
            r@ == s@,
    {
        let (stem, kind) = split_identifier(s);
        proof {
            let k = kind_of(s@).suffix_spec();
            if kind_of(s@) == PackageKind::Source {
                assert(stem_of(s@) =~= s@);
                assert(stem_of(s@) + k =~= s@);
            } else {
                assert(ends_with(s@, k));
                assert(stem_of(s@) + k =~= s@);
            }
        }
        PackageString { stem, kind }
    }

    /// The stem and the kind.
    pub fn split(&self) -> (r: (&str, PackageKind))
        ensures
            r.0@ == self.stem@,
            r.1 == self.kind,
    {
        (self.stem.as_str(), self.kind)
    }

    /// The identifier as written.
    pub fn text(&self) -> (r: String)
        ensures
            r@ == self@,
    {
        join2(self.stem.as_str(), self.kind.suffix())
    }

    /// Whether both spell the same identifier.
    pub fn same_text(&self, other: &PackageString) -> (r: bool)
        ensures
            r == (self@ == other@),
    {
        let a = self.text();
        let b = other.text();
        str_eq(a.as_str(), b.as_str())
    }

    /// A copy of this identifier.
    pub fn duplicate(&self) -> (r: PackageString)
        ensures
            r == *self,
    {
        PackageString { stem: self.stem.clone(), kind: self.kind }
    }
}

} // verus!
