//! The list of packages that the repositories offer, and what a search
//! in it shows.

use crate::clamp::{colon_index, lemma_colon_index_bounds};
use crate::text::{has_infix, str_contains, str_eq};
use vstd::prelude::*;
use vstd::string::*;

verus! {

/// One package: its name, the repository it is in, and where its manifest
/// is.
#[derive(Debug)]
pub struct Package {
    pub name: String,
    pub repo: String,
    pub pacscript: String,
}

/// The packages that one manifest builds.
#[derive(Debug)]
pub struct PkgBase {
    pub pkgbase: String,
    pub packages: Vec<Package>,
}

/// All manifests of all repositories, in the order they were listed in.
#[derive(Debug)]
pub struct PkgList {
    pub contents: Vec<PkgBase>,
}

/// A search: what is looked for, and where.
#[derive(Debug)]
pub struct FilterPkg<'a> {
    pub needle: &'a str,
    pub pkgs: &'a Vec<PkgBase>,
}

/// Why a package list could not be taken in.
#[derive(Debug)]
pub enum ListError {
    /// A package names a manifest that was not listed before it.
    MissingParent(String),
    /// A line holds more than one `:`.
    InvalidLine(String),
}

/// What a line of a package list stands for.
#[derive(Debug, Clone, Copy, PartialEq, Eq, Structural)]
pub enum EntryKind {
    /// A manifest that builds one package of its own name.
    Single,
    /// A manifest that builds several packages, listed behind it.
    Base,
    /// One package of a manifest listed before.
    Child,
    /// Nothing: the line holds more than one `:`.
    Invalid,
}

/// A package, each text by its characters.
pub struct PackageView {
    pub name: Seq<char>,
    pub repo: Seq<char>,
    pub pacscript: Seq<char>,
}

/// A manifest's packages, each text by its characters.
pub struct BaseView {
    pub pkgbase: Seq<char>,
    pub packages: Seq<PackageView>,
}

impl View for Package {
    type V = PackageView;

    open spec fn view(&self) -> PackageView {
        PackageView { name: self.name@, repo: self.repo@, pacscript: self.pacscript@ }
    }
}

impl View for PkgBase {
    type V = BaseView;

    open spec fn view(&self) -> BaseView {
        BaseView {
            pkgbase: self.pkgbase@,
            packages: Seq::new(self.packages@.len(), |i: int| self.packages@[i]@),
        }
    }
}

impl View for PkgList {
    type V = Seq<BaseView>;

    open spec fn view(&self) -> Seq<BaseView> {
        Seq::new(self.contents@.len(), |i: int| self.contents@[i]@)
    }
}

/// The part of a line before its first `:`.
pub open spec fn head_of(line: Seq<char>) -> Seq<char> {
    line.subrange(0, colon_index(line))
}

/// The part of a line behind its first `:`; empty where there is none.
pub open spec fn tail_of(line: Seq<char>) -> Seq<char> {
    if colon_index(line) < line.len() {
        line.subrange(colon_index(line) + 1, line.len() as int)
    } else {
        Seq::empty()
    }
}

/// What `line` stands for.
pub open spec fn kind_of_line(line: Seq<char>) -> EntryKind {
    if colon_index(line) == line.len() {
        EntryKind::Single
    } else if colon_index(tail_of(line)) < tail_of(line).len() {
        EntryKind::Invalid
    } else if tail_of(line) == "pkgbase"@ {
        EntryKind::Base
    } else {
        EntryKind::Child
    }
}

/// Where the manifest `pkgbase` of the repository `url` is.
pub open spec fn script_of(url: Seq<char>, pkgbase: Seq<char>) -> Seq<char> {
    url + "/packages/"@ + pkgbase + "/"@ + pkgbase + ".pacscript"@
}

/// The package `name` of the manifest `pkgbase` in the repository `url`.
pub open spec fn package_of(url: Seq<char>, pkgbase: Seq<char>, name: Seq<char>) -> PackageView {
    PackageView { name, repo: url, pacscript: script_of(url, pkgbase) }
}

/// Index of the first manifest from `from` on that is called `name`, or
/// the length of the list.
pub open spec fn parent_index(list: Seq<BaseView>, name: Seq<char>, from: int) -> int
    decreases list.len() - from,
{
    if from < 0 || from >= list.len() {
        list.len() as int
    } else if list[from].pkgbase == name {
        from
    } else {
        parent_index(list, name, from + 1)
    }
}

/// The list with what `line` of the repository `url` adds to it; nothing
/// where the line cannot be taken in.
pub open spec fn with_line(list: Seq<BaseView>, url: Seq<char>, line: Seq<char>) -> Option<
    Seq<BaseView>,
> {
    match kind_of_line(line) {
        EntryKind::Single => Some(
            list.push(BaseView { pkgbase: line, packages: seq![package_of(url, line, line)] }),
        ),
        EntryKind::Base => Some(
            list.push(BaseView { pkgbase: head_of(line), packages: Seq::empty() }),
        ),
        EntryKind::Child => {
            let k = parent_index(list, head_of(line), 0);
            if 0 <= k < list.len() {
                Some(
                    list.update(
                        k,
                        BaseView {
                            pkgbase: list[k].pkgbase,
                            packages: list[k].packages.push(
                                package_of(url, head_of(line), tail_of(line)),
                            ),
                        },
                    ),
                )
            } else {
                None
            }
        },
        EntryKind::Invalid => None,
    }
}

/// The list with what the first `n` of `lines` add to it, one after the
/// other; nothing where one of them cannot be taken in.
pub open spec fn with_lines(list: Seq<BaseView>, url: Seq<char>, lines: Seq<String>, n: int)
    -> Option<Seq<BaseView>>
    decreases n,
{
    if n <= 0 {
        Some(list)
    } else {
        match with_lines(list, url, lines, n - 1) {
            Some(before) => with_line(before, url, lines[n - 1]@),
            None => None,
        }
    }
}

/// Index of the first `:` in `s`, or the length of `s`.
pub fn find_colon(s: &str) -> (r: usize)
    ensures
        r == colon_index(s@),
{
    let n: usize = s.unicode_len();
    let mut i: usize = 0;
    proof {
        lemma_colon_index_bounds(s@);
    }
    while i < n
        invariant
            n == s@.len(),
            i <= n,
            forall|j: int| 0 <= j < i ==> s@[j] != ':',
            0 <= colon_index(s@) <= s@.len(),
            colon_index(s@) < s@.len() ==> s@[colon_index(s@)] == ':',
            forall|j: int| 0 <= j < colon_index(s@) ==> s@[j] != ':',
        decreases n - i,
    {
        if s.get_char(i) == ':' {
            return i;
        }
        i += 1;
    }
    i
}

/// Where the manifest `pkgbase` of the repository `url` is.
pub fn pacscript_url(url: &str, pkgbase: &str) -> (r: String)
    ensures
        r@ == script_of(url@, pkgbase@),
{
    let mut out = String::from_str(url);
    out.append("/packages/");
    out.append(pkgbase);
    out.append("/");
    out.append(pkgbase);
    out.append(".pacscript");
    out
}

impl ListError {
    /// The sentence that the error is shown as.
    pub fn message(&self) -> (r: String)
        ensures
            r@ == match *self {
                ListError::MissingParent(name) => "Missing parent pkgbase for: "@ + name@,
                ListError::InvalidLine(line) => "Invalid line in packagelist: "@ + line@,
            },
    {
        match self {
            ListError::MissingParent(name) => crate::text::join2(
                "Missing parent pkgbase for: ",
                name.as_str(),
            ),
            ListError::InvalidLine(line) => crate::text::join2(
                "Invalid line in packagelist: ",
                line.as_str(),
            ),
        }
    }
}

impl Package {
    /// The first package of `value`, which must have one.
    pub fn first_of(value: PkgBase) -> (r: Package)
        requires
            value.packages@.len() > 0,
        ensures
            r == value.packages@[0],
    {
        let mut packages = value.packages;
        packages.remove(0)
    }
}

impl PkgBase {
    /// The manifest builds one package, of its own name.
    pub open spec fn is_single_spec(self) -> bool {
        self.packages@.len() == 1 && self.pkgbase@ == self.packages@[0].name@
    }

    /// The name of the manifest or of one of its packages holds `search`.
    pub open spec fn contains_spec(self, search: Seq<char>) -> bool {
        has_infix(self.pkgbase@, search) || exists|i: int|
            0 <= i < self.packages@.len() && has_infix((#[trigger] self.packages@[i]).name@, search)
    }

    /// Whether the manifest builds one package, of its own name.
    pub fn is_single(&self) -> (r: bool)
        ensures
            r == self.is_single_spec(),
    {
        self.packages.len() == 1 && str_eq(self.pkgbase.as_str(), self.packages[0].name.as_str())
    }

    /// The packages of the manifest.
    pub fn flatten_pkgbase(&self) -> (r: &Vec<Package>)
        ensures
            *r == self.packages,
    {
        &self.packages
    }

    /// Whether the name of the manifest or of one of its packages holds
    /// `search`.
    pub fn contains(&self, search: &str) -> (r: bool)
        ensures
            r == self.contains_spec(search@),
    {
        if str_contains(self.pkgbase.as_str(), search) {
            return true;
        }
        let n: usize = self.packages.len();
        let mut i: usize = 0;
        while i < n
            invariant
                n == self.packages@.len(),
                i <= n,
                forall|j: int|
                    0 <= j < i ==> !has_infix((#[trigger] self.packages@[j]).name@, search@),
            decreases n - i,
        {
            if str_contains(self.packages[i].name.as_str(), search) {
                return true;
            }
            i += 1;
        }
        false
    }
}

impl Default for PkgList {
    fn default() -> (r: Self)
        ensures
            r@ == Seq::<BaseView>::empty(),
    {
        let r = PkgList { contents: Vec::new() };
        assert(r@ =~= Seq::<BaseView>::empty());
        r
    }
}

impl PkgList {
    /// Position of the first manifest called `name`.
    fn find_parent(&self, name: &str) -> (r: Option<usize>)
        ensures
            r is Some <==> parent_index(self@, name@, 0) < self@.len(),
            r matches Some(k) ==> k == parent_index(self@, name@, 0) && k < self.contents@.len(),
    {
        let n: usize = self.contents.len();
        let mut i: usize = 0;
        while i < n
            invariant
                n == self.contents@.len(),
                n == self@.len(),
                i <= n,
                parent_index(self@, name@, 0) == parent_index(self@, name@, i as int),
            decreases n - i,
        {
            if str_eq(self.contents[i].pkgbase.as_str(), name) {
                return Some(i);
            }
            i += 1;
        }
        None
    }

    /// Takes in one line of the package list of the repository `url`. A
    /// line that cannot be taken in leaves the list as it was.
    pub fn add_entry(&mut self, url: &str, line: &str) -> (r: Result<(), ListError>)
        ensures
            match with_line(old(self)@, url@, line@) {
                Some(list) => r is Ok && final(self)@ == list,
                None => {
                    &&& final(self)@ == old(self)@
                    &&& r matches Err(e)
                    &&& match kind_of_line(line@) {
                        EntryKind::Invalid => e matches ListError::InvalidLine(l) && l@ == line@,
                        _ => e matches ListError::MissingParent(p) && p@ == head_of(line@),
                    }
                },
            },
    {
        let n: usize = line.unicode_len();
        let k: usize = find_colon(line);
        proof {
            lemma_colon_index_bounds(line@);
        }
        let ghost before = self@;
        if k == n {
            let package = Package {
                name: line.to_owned(),
                repo: url.to_owned(),
                pacscript: pacscript_url(url, line),
            };
            let mut packages: Vec<Package> = Vec::new();
            packages.push(package);
            let base = PkgBase { pkgbase: line.to_owned(), packages };
            assert(base@.packages =~= seq![package_of(url@, line@, line@)]);
            self.contents.push(base);
            assert(self@ =~= before.push(base@));
            return Ok(());
        }
        let head = line.substring_char(0, k);
        let tail = line.substring_char(k + 1, n);
        proof {
            lemma_colon_index_bounds(tail@);
        }
        if find_colon(tail) < tail.unicode_len() {
            return Err(ListError::InvalidLine(line.to_owned()));
        }
        if str_eq(tail, "pkgbase") {
            let base = PkgBase { pkgbase: head.to_owned(), packages: Vec::new() };
            assert(base@.packages =~= Seq::empty());
            self.contents.push(base);
            assert(self@ =~= before.push(base@));
            return Ok(());
        }
        match self.find_parent(head) {
            Some(at) => {
                let mut parent = self.contents.remove(at);
                let ghost was = parent@;
                let package = Package {
                    name: tail.to_owned(),
                    repo: url.to_owned(),
                    pacscript: pacscript_url(url, head),
                };
                parent.packages.push(package);
                assert(parent@.packages =~= was.packages.push(package_of(url@, head@, tail@)));
                self.contents.insert(at, parent);
                assert(self@ =~= before.update(at as int, parent@));
                Ok(())
            },
            None => Err(ListError::MissingParent(head.to_owned())),
        }
    }

    /// Takes in the lines of the package list of the repository `url`, in
    /// order, and stops at the first that cannot be taken in.
    pub fn extend(self, url: &str, lines: &Vec<String>) -> (r: Result<PkgList, ListError>)
        ensures
            match with_lines(self@, url@, lines@, lines@.len() as int) {
                Some(list) => r matches Ok(l) && l@ == list,
                None => r is Err,
            },
    {
        let mut list = self;
        let n: usize = lines.len();
        let mut i: usize = 0;
        while i < n
            invariant
                n == lines@.len(),
                i <= n,
                with_lines(self@, url@, lines@, i as int) == Some(list@),
            decreases n - i,
        {
            match list.add_entry(url, lines[i].as_str()) {
                Ok(_) => {},
                Err(e) => {
                    proof {
                        lemma_failure_stays(self@, url@, lines@, i + 1, n as int);
                    }
                    return Err(e);
                },
            }
            i += 1;
        }
        Ok(list)
    }

    /// A search for `search` in this list.
    pub fn filter_pkg<'a>(&'a self, search: &'a str) -> (r: FilterPkg<'a>)
        ensures
            r.needle@ == search@,
            *r.pkgs == self.contents,
    {
        FilterPkg { needle: search, pkgs: &self.contents }
    }
}

/// Once a line could not be taken in, no later line mends it.
pub proof fn lemma_failure_stays(
    list: Seq<BaseView>,
    url: Seq<char>,
    lines: Seq<String>,
    n: int,
    m: int,
)
    requires
        0 <= n <= m,
        with_lines(list, url, lines, n) is None,
    ensures
        with_lines(list, url, lines, m) is None,
    decreases m - n,
{
    if n < m {
        lemma_failure_stays(list, url, lines, n, m - 1);
    }
}

/// Package `p` of manifest `b` is shown by a search for `needle`: the
/// name of the manifest holds it, or the name of the package does.
pub open spec fn shown(pkgs: Seq<PkgBase>, needle: Seq<char>, b: int, p: int) -> bool {
    has_infix(pkgs[b].pkgbase@, needle) || has_infix(pkgs[b].packages@[p].name@, needle)
}

/// The places of the packages among the first `n` of manifest `b` that a
/// search shows, in order.
pub open spec fn shown_in(pkgs: Seq<PkgBase>, needle: Seq<char>, b: int, n: int) -> Seq<
    (usize, usize),
>
    decreases n,
{
    if n <= 0 {
        Seq::empty()
    } else if shown(pkgs, needle, b, n - 1) {
        shown_in(pkgs, needle, b, n - 1).push((b as usize, (n - 1) as usize))
    } else {
        shown_in(pkgs, needle, b, n - 1)
    }
}

/// The places of the packages of the first `n` manifests that a search
/// shows, manifest by manifest.
pub open spec fn shown_upto(pkgs: Seq<PkgBase>, needle: Seq<char>, n: int) -> Seq<(usize, usize)>
    decreases n,
{
    if n <= 0 {
        Seq::empty()
    } else {
        shown_upto(pkgs, needle, n - 1) + shown_in(
            pkgs,
            needle,
            n - 1,
            pkgs[n - 1].packages@.len() as int,
        )
    }
}

/// The line that shows one package: its name, or the name of its manifest
/// and its own where they are not one, and where it comes from.
pub open spec fn line_spec(base: PkgBase, p: int, pretty: Seq<char>) -> Seq<char> {
    if base.is_single_spec() {
        base.packages@[p].name@ + " @ "@ + pretty
    } else {
        base.pkgbase@ + ":"@ + base.packages@[p].name@ + " @ "@ + pretty
    }
}

impl<'a> FilterPkg<'a> {
    /// The packages that the search shows, each by the place of its
    /// manifest and its own place in the manifest, in the order of the
    /// list.
    pub fn entries(&self) -> (r: Vec<(usize, usize)>)
        ensures
            r@ == shown_upto(self.pkgs@, self.needle@, self.pkgs@.len() as int),
    {
        let n: usize = self.pkgs.len();
        let mut out: Vec<(usize, usize)> = Vec::new();
        let mut b: usize = 0;
        while b < n
            invariant
                n == self.pkgs@.len(),
                b <= n,
                out@ == shown_upto(self.pkgs@, self.needle@, b as int),
            decreases n - b,
        {
            let base = &self.pkgs[b];
            let whole = str_contains(base.pkgbase.as_str(), self.needle);
            let m: usize = base.packages.len();
            let ghost done = out@;
            let mut p: usize = 0;
            while p < m
                invariant
                    b < n,
                    n == self.pkgs@.len(),
                    base == &self.pkgs@[b as int],
                    m == base.packages@.len(),
                    p <= m,
                    whole == has_infix(base.pkgbase@, self.needle@),
                    out@ =~= done + shown_in(self.pkgs@, self.needle@, b as int, p as int),
                decreases m - p,
            {
                if whole || str_contains(base.packages[p].name.as_str(), self.needle) {
                    out.push((b, p));
                }
                p += 1;
            }
            b += 1;
        }
        out
    }

    /// The line that shows package `p` of `base`, which comes from
    /// `pretty`.
    pub fn line(base: &PkgBase, p: usize, pretty: &str) -> (r: String)
        requires
            p < base.packages@.len(),
        ensures
            r@ == line_spec(*base, p as int, pretty@),
    {
        let mut out = String::new();
        if !base.is_single() {
            out.append(base.pkgbase.as_str());
            out.append(":");
        }
        out.append(base.packages[p].name.as_str());
        out.append(" @ ");
        out.append(pretty);
        proof {
            assert(Seq::<char>::empty() + base.packages@[p as int].name@
                =~= base.packages@[p as int].name@);
            assert(Seq::<char>::empty() + base.pkgbase@ =~= base.pkgbase@);
        }
        out
    }
}

} // verus!
