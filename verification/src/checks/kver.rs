//! The kernel version that a package asks for.

use crate::checks::Check;
use crate::clamp::Host;
use crate::keys::PackageString;
use crate::srcinfo::SrcInfo;
use vstd::prelude::*;
use vstd::string::*;

verus! {

/// Checks that a kernel version says how it is to be compared.
#[derive(Debug, Clone, Copy)]
pub struct Kver;

/// What is wrong with a `kver` field.
#[derive(Debug, PartialEq, Eq)]
pub enum KverError {
    Constraint { key: &'static str, val: String },
}

impl KverError {
    /// The error says that `val` lacks a constraint.
    pub open spec fn reports(self, val: Seq<char>) -> bool {
        match self {
            KverError::Constraint { key, val: v } => key@ == "kver"@ && v@ == val,
        }
    }
}

/// `s` begins with one of `<`, `<=`, `=`, `>=`, `>`: with `<`, `>` or `=`.
pub open spec fn constraint_prefixed(s: Seq<char>) -> bool {
    s.len() > 0 && (s[0] == '<' || s[0] == '>' || s[0] == '=')
}

impl Kver {
    /// Whether `s` begins with a constraint operator.
    pub fn has_constraint_prefix(s: &str) -> (r: bool)
        ensures
            r == constraint_prefixed(s@),
    {
        if s.unicode_len() == 0 {
            return false;
        }
        let c = s.get_char(0);
        c == '<' || c == '>' || c == '='
    }
}

impl Check for Kver {
    type Error = KverError;

    open spec fn admits(&self, pkgchild: &PackageString, srcinfo: &SrcInfo) -> bool {
        true
    }

    /// The name of this check.
    fn name(&self) -> (r: &'static str)
        ensures
            r@ == "kver"@,
    {
        "kver"
    }

    /// Refuses a kernel version that does not begin with a constraint
    /// operator; a manifest without `kver` passes.
    fn check(&self, pkgchild: &PackageString, srcinfo: &SrcInfo, host: &Host) -> (r: Result<
        (),
        KverError,
    >)
        ensures
            match srcinfo.pkgbase.kver {
                None => r is Ok,
                Some(kver) => if constraint_prefixed(kver@) {
                    r is Ok
                } else {
                    r matches Err(e) && e.reports(kver@)
                },
            },
    {
        match &srcinfo.pkgbase.kver {
            Some(kver) => {
                if !Self::has_constraint_prefix(kver.as_str()) {
                    return Err(KverError::Constraint { key: "kver", val: kver.clone() });
                }
            },
            None => {},
        }
        Ok(())
    }
}

} // verus!
