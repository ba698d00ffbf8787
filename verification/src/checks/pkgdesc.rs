//! The description of a package.

use crate::checks::Check;
use crate::clamp::Host;
use crate::keys::PackageString;
use crate::srcinfo::SrcInfo;
use vstd::prelude::*;

verus! {

/// Checks that a package describes itself.
#[derive(Debug, Clone, Copy)]
pub struct Pkgdesc;

/// What is wrong with a description.
#[derive(Debug, PartialEq, Eq)]
pub enum PkgdescError {
    Empty { pkg: String, var: String },
    Missing { pkg: String, var: String },
}

impl PkgdescError {
    /// The error says that the description of `pkg` is empty.
    pub open spec fn reports_empty(self, pkg: Seq<char>) -> bool {
        self matches PkgdescError::Empty { pkg: p, var } && p@ == pkg && var@ == "pkgdesc"@
    }
}

/// The description that `name` stands for in `srcinfo`: that of the first
/// package of the name, else the shared one.
pub open spec fn description_of(srcinfo: SrcInfo, name: Seq<char>) -> Seq<char> {
    if srcinfo.is_child_spec(name) {
        srcinfo.packages@[srcinfo.child_index(name)].pkgdesc@
    } else {
        srcinfo.pkgbase.pkgdesc@
    }
}

impl Check for Pkgdesc {
    type Error = PkgdescError;

    open spec fn admits(&self, pkgchild: &PackageString, srcinfo: &SrcInfo) -> bool {
        srcinfo.knows(pkgchild@)
    }

    /// The name of this check.
    fn name(&self) -> (r: &'static str)
        ensures
            r@ == "pkgdesc"@,
    {
        "pkgdesc"
    }

    /// Refuses an empty description. A description is never missing: a
    /// package without one has the empty one.
    fn check(&self, pkgchild: &PackageString, srcinfo: &SrcInfo, host: &Host) -> (r: Result<
        (),
        PkgdescError,
    >)
        ensures
            description_of(*srcinfo, pkgchild@).len() > 0 ==> r is Ok,
            description_of(*srcinfo, pkgchild@).len() == 0 ==> (r matches Err(e) && e.reports_empty(
                pkgchild@,
            )),
    {
        let pkgdesc: &String = match srcinfo.find_child(pkgchild) {
            Some(i) => &srcinfo.packages[i].pkgdesc,
            None => &srcinfo.pkgbase.pkgdesc,
        };
        if pkgdesc.as_str().unicode_len() == 0 {
            Err(PkgdescError::Empty { pkg: pkgchild.text(), var: "pkgdesc".to_owned() })
        } else {
            Ok(())
        }
    }
}

} // verus!
