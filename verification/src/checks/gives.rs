//! The names that a package gives itself.

use crate::checks::Check;
use crate::clamp::{ArchDistro, Host};
use crate::keys::{PackageKind, PackageString};
use crate::rules::{find_hit, first_hit_from, NameRule};
use crate::srcinfo::SrcInfo;
use vstd::prelude::*;

verus! {

/// Checks the `gives` field of a package.
#[derive(Debug, Clone, Copy)]
pub struct Gives;

/// What is wrong with a `gives` field.
#[derive(Debug, PartialEq, Eq)]
pub enum GivesError {
    NoGives(&'static str),
    TwoChars { pacname: &'static str, text: String },
    Alphanumeric { pacname: &'static str, text: String },
    Uppercase { pacname: &'static str, text: String },
    Alnum { pacname: &'static str, text: String },
}

impl GivesError {
    /// The error says that the given name `text` breaks `rule`.
    pub open spec fn reports(self, rule: NameRule, text: Seq<char>) -> bool {
        match self {
            GivesError::NoGives(_) => false,
            GivesError::TwoChars { pacname, text: t } => rule == NameRule::TwoChars && pacname@
                == "gives"@ && t@ == text,
            GivesError::Alphanumeric { pacname, text: t } => rule == NameRule::Alphanumeric
                && pacname@ == "gives"@ && t@ == text,
            GivesError::Uppercase { pacname, text: t } => rule == NameRule::Uppercase && pacname@
                == "gives"@ && t@ == text,
            GivesError::Alnum { pacname, text: t } => rule == NameRule::Alnum && pacname@
                == "gives"@ && t@ == text,
        }
    }

    /// The error says that the field is missing.
    pub open spec fn reports_missing(self) -> bool {
        self matches GivesError::NoGives(field) && field@ == "gives"@
    }

    /// The error that says that the given name `text` breaks `rule`.
    pub fn for_rule(rule: NameRule, text: &str) -> (r: GivesError)
        ensures
            r.reports(rule, text@),
    {
        match rule {
            NameRule::TwoChars => GivesError::TwoChars { pacname: "gives", text: text.to_owned() },
            NameRule::Alphanumeric => GivesError::Alphanumeric {
                pacname: "gives",
                text: text.to_owned(),
            },
            NameRule::Uppercase => GivesError::Uppercase {
                pacname: "gives",
                text: text.to_owned(),
            },
            NameRule::Alnum => GivesError::Alnum { pacname: "gives", text: text.to_owned() },
        }
    }
}

/// The result of trying one rule on one given name.
pub open spec fn rule_result(r: Result<(), GivesError>, rule: NameRule, name: Seq<char>) -> bool {
    match r {
        Ok(_) => !rule.broken_by(name),
        Err(e) => rule.broken_by(name) && e.reports(rule, name),
    }
}

/// What the check finds in a `gives` field that holds entries: the first
/// rule, in order, that some entry holding on `host` breaks, and the first
/// such entry.
pub open spec fn verdict(entries: Seq<(ArchDistro, String)>, host: Host) -> Option<
    (NameRule, int),
> {
    let n = entries.len() as int;
    let a = first_hit_from(entries, host, NameRule::TwoChars, 0);
    let b = first_hit_from(entries, host, NameRule::Alphanumeric, 0);
    let c = first_hit_from(entries, host, NameRule::Uppercase, 0);
    let d = first_hit_from(entries, host, NameRule::Alnum, 0);
    if a < n {
        Some((NameRule::TwoChars, a))
    } else if b < n {
        Some((NameRule::Alphanumeric, b))
    } else if c < n {
        Some((NameRule::Uppercase, c))
    } else if d < n {
        Some((NameRule::Alnum, d))
    } else {
        None
    }
}

/// The `gives` field of the package that `name` stands for; empty where
/// no package carries the name.
pub open spec fn entries_of(srcinfo: SrcInfo, name: Seq<char>) -> Seq<(ArchDistro, String)> {
    if srcinfo.is_child_spec(name) {
        srcinfo.packages@[srcinfo.child_index(name)].gives@
    } else {
        Seq::empty()
    }
}

impl Gives {
    /// Tries one rule on `gives`.
    fn try_rule(rule: NameRule, gives: &str) -> (r: Result<(), GivesError>)
        ensures
            rule_result(r, rule, gives@),
    {
        if rule.is_broken_by(gives) {
            Err(GivesError::for_rule(rule, gives))
        } else {
            Ok(())
        }
    }

    /// A given name is at least two bytes long.
    pub fn check_len(gives: &str) -> (r: Result<(), GivesError>)
        ensures
            rule_result(r, NameRule::TwoChars, gives@),
    {
        Self::try_rule(NameRule::TwoChars, gives)
    }

    /// A given name does not begin with `.`, `-` or `+`.
    pub fn check_alphanumeric(gives: &str) -> (r: Result<(), GivesError>)
        ensures
            rule_result(r, NameRule::Alphanumeric, gives@),
    {
        Self::try_rule(NameRule::Alphanumeric, gives)
    }

    /// A given name holds no ASCII uppercase letter.
    pub fn check_lowercase(gives: &str) -> (r: Result<(), GivesError>)
        ensures
            rule_result(r, NameRule::Uppercase, gives@),
    {
        Self::try_rule(NameRule::Uppercase, gives)
    }

    /// A given name holds only lowercase letters, digits, `-` and `.`.
    pub fn check_alnum(gives: &str) -> (r: Result<(), GivesError>)
        ensures
            rule_result(r, NameRule::Alnum, gives@),
    {
        Self::try_rule(NameRule::Alnum, gives)
    }

    /// Holds every entry of `entries` that holds on `host` to one rule
    /// after the other.
    pub fn check_entries(entries: &Vec<(ArchDistro, String)>, host: &Host) -> (r: Result<
        (),
        GivesError,
    >)
        ensures
            match verdict(entries@, *host) {
                None => r is Ok,
                Some((rule, i)) => r matches Err(e) && e.reports(rule, entries@[i].1@),
            },
    {
        let rules = [
            NameRule::TwoChars,
            NameRule::Alphanumeric,
            NameRule::Uppercase,
            NameRule::Alnum,
        ];
        let mut k: usize = 0;
        while k < 4
            invariant
                k <= 4,
                rules@ == seq![
                    NameRule::TwoChars,
                    NameRule::Alphanumeric,
                    NameRule::Uppercase,
                    NameRule::Alnum,
                ],
                forall|j: int|
                    0 <= j < k ==> first_hit_from(entries@, *host, #[trigger] rules@[j], 0)
                        == entries@.len(),
            decreases 4 - k,
        {
            let rule = rules[k];
            proof {
                crate::rules::lemma_first_hit(entries@, *host, rule, 0);
            }
            match find_hit(entries, host, rule) {
                Some(i) => {
                    let r = Self::try_rule(rule, entries[i].1.as_str());
                    proof {
                        assert(rules@[0] == NameRule::TwoChars);
                        assert(rules@[1] == NameRule::Alphanumeric);
                        assert(rules@[2] == NameRule::Uppercase);
                        assert(rules@[3] == NameRule::Alnum);
                    }
                    return r;
                },
                None => {},
            }
            k += 1;
        }
        proof {
            assert(rules@[0] == NameRule::TwoChars);
            assert(rules@[1] == NameRule::Alphanumeric);
            assert(rules@[2] == NameRule::Uppercase);
            assert(rules@[3] == NameRule::Alnum);
        }
        Ok(())
    }
}

impl Check for Gives {
    type Error = GivesError;

    open spec fn admits(&self, pkgchild: &PackageString, srcinfo: &SrcInfo) -> bool {
        true
    }

    /// The name of this check.
    fn name(&self) -> (r: &'static str)
        ensures
            r@ == "gives"@,
    {
        "gives"
    }

    /// Checks the `gives` field of the package that `pkgchild` stands for.
    /// A field with entries is held to the rules; without entries, a
    /// package of kind `Deb` is refused and any other passes.
    fn check(&self, pkgchild: &PackageString, srcinfo: &SrcInfo, host: &Host) -> (r: Result<
        (),
        GivesError,
    >)
        ensures
            entries_of(*srcinfo, pkgchild@).len() > 0 ==> match verdict(
                entries_of(*srcinfo, pkgchild@),
                *host,
            ) {
                None => r is Ok,
                Some((rule, i)) => r matches Err(e) && e.reports(
                    rule,
                    entries_of(*srcinfo, pkgchild@)[i].1@,
                ),
            },
            entries_of(*srcinfo, pkgchild@).len() == 0 ==> if pkgchild.kind == PackageKind::Deb {
                r matches Err(e) && e.reports_missing()
            } else {
                r is Ok
            },
    {
        match srcinfo.find_child(pkgchild) {
            Some(i) => {
                if srcinfo.packages[i].gives.len() > 0 {
                    return Self::check_entries(&srcinfo.packages[i].gives, host);
                }
            },
            None => {},
        }
        if pkgchild.split().1 == PackageKind::Deb {
            Err(GivesError::NoGives("gives"))
        } else {
            Ok(())
        }
    }
}

} // verus!
