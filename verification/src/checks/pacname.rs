//! The name of a package.

use crate::checks::Check;
use crate::clamp::Host;
use crate::keys::PackageString;
use crate::rules::{find_broken, first_broken, NameRule};
use crate::srcinfo::SrcInfo;
use vstd::prelude::*;

verus! {

/// Checks the name that a package goes by.
#[derive(Debug, Clone, Copy)]
pub struct Pacname;

/// What is wrong with a package's name.
#[derive(Debug, PartialEq, Eq)]
pub enum PacnameError {
    NoPacname(String),
    TwoChars { pacname: &'static str, text: String },
    Alphanumeric { pacname: &'static str, text: String },
    Uppercase { pacname: &'static str, text: String },
    Alnum { pacname: &'static str, text: String },
}

impl PacnameError {
    /// The error says that the name `text` breaks `rule`.
    pub open spec fn reports(self, rule: NameRule, text: Seq<char>) -> bool {
        match self {
            PacnameError::NoPacname(_) => false,
            PacnameError::TwoChars { pacname, text: t } => rule == NameRule::TwoChars && pacname@
                == "pacname"@ && t@ == text,
            PacnameError::Alphanumeric { pacname, text: t } => rule == NameRule::Alphanumeric
                && pacname@ == "pacname"@ && t@ == text,
            PacnameError::Uppercase { pacname, text: t } => rule == NameRule::Uppercase && pacname@
                == "pacname"@ && t@ == text,
            PacnameError::Alnum { pacname, text: t } => rule == NameRule::Alnum && pacname@
                == "pacname"@ && t@ == text,
        }
    }

    /// The error that says that the name `text` breaks `rule`.
    pub fn for_rule(rule: NameRule, text: &str) -> (r: PacnameError)
        ensures
            r.reports(rule, text@),
    {
        match rule {
            NameRule::TwoChars => PacnameError::TwoChars {
                pacname: "pacname",
                text: text.to_owned(),
            },
            NameRule::Alphanumeric => PacnameError::Alphanumeric {
                pacname: "pacname",
                text: text.to_owned(),
            },
            NameRule::Uppercase => PacnameError::Uppercase {
                pacname: "pacname",
                text: text.to_owned(),
            },
            NameRule::Alnum => PacnameError::Alnum { pacname: "pacname", text: text.to_owned() },
        }
    }
}

/// The result of trying one rule on one name.
pub open spec fn rule_result(r: Result<(), PacnameError>, rule: NameRule, name: Seq<char>) -> bool {
    match r {
        Ok(_) => !rule.broken_by(name),
        Err(e) => rule.broken_by(name) && e.reports(rule, name),
    }
}

impl Pacname {
    /// Tries one rule on `pkgname`.
    fn try_rule(rule: NameRule, pkgname: &str) -> (r: Result<(), PacnameError>)
        ensures
            rule_result(r, rule, pkgname@),
    {
        if rule.is_broken_by(pkgname) {
            Err(PacnameError::for_rule(rule, pkgname))
        } else {
            Ok(())
        }
    }

    /// A name is at least two bytes long.
    pub fn check_len(pkgname: &str) -> (r: Result<(), PacnameError>)
        ensures
            rule_result(r, NameRule::TwoChars, pkgname@),
    {
        Self::try_rule(NameRule::TwoChars, pkgname)
    }

    /// A name does not begin with `.`, `-` or `+`.
    pub fn check_alphanumeric(pkgname: &str) -> (r: Result<(), PacnameError>)
        ensures
            rule_result(r, NameRule::Alphanumeric, pkgname@),
    {
        Self::try_rule(NameRule::Alphanumeric, pkgname)
    }

    /// A name holds no ASCII uppercase letter.
    pub fn check_lowercase(pkgname: &str) -> (r: Result<(), PacnameError>)
        ensures
            rule_result(r, NameRule::Uppercase, pkgname@),
    {
        Self::try_rule(NameRule::Uppercase, pkgname)
    }

    /// A name holds only lowercase letters, digits, `-` and `.`.
    pub fn check_alnum(pkgname: &str) -> (r: Result<(), PacnameError>)
        ensures
            rule_result(r, NameRule::Alnum, pkgname@),
    {
        Self::try_rule(NameRule::Alnum, pkgname)
    }
}

impl Check for Pacname {
    type Error = PacnameError;

    open spec fn admits(&self, pkgchild: &PackageString, srcinfo: &SrcInfo) -> bool {
        srcinfo.knows(pkgchild@)
    }

    /// The name of this check.
    fn name(&self) -> (r: &'static str)
        ensures
            r@ == "pacname"@,
    {
        "pacname"
    }

    /// Holds the name that `pkgname` stands for in `srcinfo` to the four
    /// rules, in order, and reports the first that it breaks.
    fn check(&self, pkgchild: &PackageString, srcinfo: &SrcInfo, host: &Host) -> (r: Result<
        (),
        PacnameError,
    >)
        ensures
            match first_broken(pkgchild@) {
                None => r is Ok,
                Some(rule) => r matches Err(e) && e.reports(rule, pkgchild@),
            },
    {
        let name: String = match srcinfo.find_child(pkgchild) {
            Some(i) => srcinfo.packages[i].pkgname.text(),
            None => srcinfo.pkgbase.pkgbase.text(),
        };
        assert(name@ == pkgchild@) by {
            crate::srcinfo::lemma_child_index(srcinfo.packages@, pkgchild@, 0);
        }
        match Self::check_len(name.as_str()) {
            Err(e) => {
                return Err(e);
            },
            Ok(_) => {},
        }
        match Self::check_alphanumeric(name.as_str()) {
            Err(e) => {
                return Err(e);
            },
            Ok(_) => {},
        }
        match Self::check_lowercase(name.as_str()) {
            Err(e) => {
                return Err(e);
            },
            Ok(_) => {},
        }
        Self::check_alnum(name.as_str())
    }
}

} // verus!
