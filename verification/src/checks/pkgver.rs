//! The version that the packages of a manifest share.

use crate::checks::Check;
use crate::clamp::Host;
use crate::keys::PackageString;
use crate::report::pkgver::{first_fault, PkgverError};
use crate::srcinfo::SrcInfo;
use vstd::prelude::*;

verus! {

/// Checks the version of a manifest.
#[derive(Debug, Clone, Copy)]
pub struct Pkgver;

impl Check for Pkgver {
    type Error = PkgverError;

    open spec fn admits(&self, pkgchild: &PackageString, srcinfo: &SrcInfo) -> bool {
        true
    }

    /// The name of this check.
    fn name(&self) -> (r: &'static str)
        ensures
            r@ == "pkgver"@,
    {
        "pkgver"
    }

    /// Refuses a version that does not begin with an ASCII digit, and
    /// then one that holds a character that no version may hold.
    fn check(&self, pkgchild: &PackageString, srcinfo: &SrcInfo, host: &Host) -> (r: Result<
        (),
        PkgverError,
    >)
        ensures
            match first_fault(srcinfo.pkgbase.pkgver@) {
                None => r is Ok,
                Some(e) => r == Err::<(), PkgverError>(e),
            },
    {
        crate::report::pkgver::Pkgver::verify(srcinfo.pkgbase.pkgver.as_str())
    }
}

} // verus!
