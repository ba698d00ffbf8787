//! The policy checks, one module each, and the runner that holds them in
//! order.

use crate::clamp::Host;
use crate::keys::PackageString;
use crate::srcinfo::SrcInfo;
use vstd::prelude::*;

pub mod deb;
pub mod gives;
pub mod hash;
pub mod incompatible;
pub mod kver;
pub mod mask;
pub mod pacname;
pub mod pkgdesc;
pub mod pkgver;
pub mod runner;

verus! {

/// One check of a manifest against packaging policy.
pub trait Check {
    /// What the check can find wrong.
    type Error: Into<crate::checks::runner::CheckError>;

    /// The check may be asked about `pkgchild` in `srcinfo`. A check that
    /// looks a package up may only be asked about a name that the
    /// manifest knows.
    spec fn admits(&self, pkgchild: &PackageString, srcinfo: &SrcInfo) -> bool;

    /// What the check is called in a report.
    fn name(&self) -> (r: &'static str);

    /// Checks one concern of the manifest for the package `pkgchild`, as
    /// seen from `host`.
    fn check(&self, pkgchild: &PackageString, srcinfo: &SrcInfo, host: &Host) -> (r: Result<
        (),
        Self::Error,
    >)
        requires
            self.admits(pkgchild, srcinfo),
    ;
}

} // verus!
