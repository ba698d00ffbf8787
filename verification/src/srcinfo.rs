//! The structured description of a manifest: what all of its packages
//! share, and what each package says of itself.

use crate::clamp::{ArchDistro, DistroClamp};
use crate::keys::{Arch, PackageString};
use vstd::prelude::*;

verus! {

/// How urgently a system wants a package.
#[derive(Debug, Clone, Copy, PartialEq, Eq, Structural)]
pub enum Priority {
    Essential,
    Required,
    Important,
    Standard,
    Optional,
}

/// What the packages of one manifest share.
#[derive(Debug)]
pub struct PkgBase {
    pub pkgbase: PackageString,
    pub pkgdesc: String,
    pub pkgver: String,
    pub pkgrel: usize,
    pub epoch: usize,
    pub mask: Vec<String>,
    pub kver: Option<String>,
    pub compatible: Vec<DistroClamp>,
    pub incompatible: Vec<DistroClamp>,
    pub maintainer: Vec<String>,
    pub source: Vec<(ArchDistro, String)>,
    pub noextract: Vec<String>,
    pub nosubmodules: Vec<String>,
    pub md5sums: Vec<(ArchDistro, String)>,
    pub sha1sums: Vec<(ArchDistro, String)>,
    pub sha224sums: Vec<(ArchDistro, String)>,
    pub sha256sums: Vec<(ArchDistro, String)>,
    pub sha384sums: Vec<(ArchDistro, String)>,
    pub sha512sums: Vec<(ArchDistro, String)>,
    pub b2sums: Vec<(ArchDistro, String)>,
    pub makedepends: Vec<(ArchDistro, String)>,
    pub makeconflicts: Vec<(ArchDistro, String)>,
}

/// What one package says of itself.
#[derive(Debug)]
pub struct PkgInfo {
    pub pkgname: PackageString,
    pub pkgdesc: String,
    pub url: String,
    pub priority: Priority,
    pub arch: Vec<Arch>,
    pub license: Vec<String>,
    pub gives: Vec<(ArchDistro, String)>,
    pub depends: Vec<(ArchDistro, String)>,
    pub checkdepends: Vec<(ArchDistro, String)>,
    pub optdepends: Vec<(ArchDistro, String)>,
    pub checkconflicts: Vec<(ArchDistro, String)>,
    pub conflicts: Vec<(ArchDistro, String)>,
    pub provides: Vec<(ArchDistro, String)>,
    pub breaks: Vec<(ArchDistro, String)>,
    pub replaces: Vec<(ArchDistro, String)>,
    pub enhances: Vec<(ArchDistro, String)>,
    pub recommends: Vec<(ArchDistro, String)>,
    pub suggests: Vec<(ArchDistro, String)>,
    pub backup: Vec<String>,
    pub repology: Vec<String>,
}

/// A whole manifest: the shared part and its packages, in the order the
/// manifest names them.
#[derive(Debug)]
pub struct SrcInfo {
    pub pkgbase: PkgBase,
    pub packages: Vec<PkgInfo>,
}

/// Index of the first package from `from` on whose name is written `name`,
/// or the number of packages where there is none.
pub open spec fn child_index_from(packages: Seq<PkgInfo>, name: Seq<char>, from: int) -> int
    decreases packages.len() - from,
{
    if from < 0 || from >= packages.len() {
        packages.len() as int
    } else if packages[from].pkgname@ == name {
        from
    } else {
        child_index_from(packages, name, from + 1)
    }
}

/// What `child_index_from` finds is the first match at or after `from`.
pub proof fn lemma_child_index(packages: Seq<PkgInfo>, name: Seq<char>, from: int)
    requires
        0 <= from <= packages.len(),
    ensures
        from <= child_index_from(packages, name, from) <= packages.len(),
        child_index_from(packages, name, from) < packages.len() ==> packages[child_index_from(
            packages,
            name,
            from,
        )].pkgname@ == name,
        forall|j: int|
            from <= j < child_index_from(packages, name, from) ==> (
            #[trigger] packages[j]).pkgname@ != name,
    decreases packages.len() - from,
{
    if from < packages.len() && packages[from].pkgname@ != name {
        lemma_child_index(packages, name, from + 1);
    }
}

impl SrcInfo {
    /// The manifest is usable: it names at least one package.
    pub open spec fn wf(self) -> bool {
        self.packages@.len() > 0
    }

    /// Index of the first package named `name`, or the number of packages.
    pub open spec fn child_index(self, name: Seq<char>) -> int {
        child_index_from(self.packages@, name, 0)
    }

    /// Some package of the manifest is named `name`.
    pub open spec fn is_child_spec(self, name: Seq<char>) -> bool {
        self.child_index(name) < self.packages@.len()
    }

    /// The shared identity of the manifest is `name`.
    pub open spec fn is_parent_spec(self, name: Seq<char>) -> bool {
        self.pkgbase.pkgbase@ == name
    }

    /// `name` is one that a check may be asked about.
    pub open spec fn knows(self, name: Seq<char>) -> bool {
        self.is_child_spec(name) || self.is_parent_spec(name)
    }

    /// Number of packages.
    pub fn len(&self) -> (r: usize)
        ensures
            r == self.packages@.len(),
    {
        self.packages.len()
    }

    /// Position of the first package named like `pkg`, if there is one.
    pub fn find_child(&self, pkg: &PackageString) -> (r: Option<usize>)
        ensures
            r is Some <==> self.is_child_spec(pkg@),
            r matches Some(i) ==> i == self.child_index(pkg@) && i < self.packages@.len(),
    {
        let n: usize = self.packages.len();
        let mut i: usize = 0;
        while i < n
            invariant
                n == self.packages@.len(),
                i <= n,
                child_index_from(self.packages@, pkg@, 0) == child_index_from(
                    self.packages@,
                    pkg@,
                    i as int,
                ),
            decreases n - i,
        {
            if self.packages[i].pkgname.same_text(pkg) {
                return Some(i);
            }
            i += 1;
        }
        None
    }

    /// Whether some package of the manifest is named like `pkg`.
    pub fn is_child(&self, pkg: &PackageString) -> (r: bool)
        ensures
            r == self.is_child_spec(pkg@),
    {
        self.find_child(pkg).is_some()
    }

    /// Whether the manifest's shared identity is named like `pkg`.
    pub fn is_parent(&self, pkg: &PackageString) -> (r: bool)
        ensures
            r == self.is_parent_spec(pkg@),
    {
        self.pkgbase.pkgbase.same_text(pkg)
    }
}

/// A name is that of a package exactly if some package carries it.
pub proof fn lemma_is_child_iff_exists(info: SrcInfo, name: Seq<char>)
    ensures
        info.is_child_spec(name) <==> exists|i: int|
            0 <= i < info.packages@.len() && (#[trigger] info.packages@[i]).pkgname@ == name,
{
    lemma_child_index(info.packages@, name, 0);
}

} // verus!
