//! The source of a package that is delivered as a `.deb` file.

use crate::checks::Check;
use crate::clamp::{ArchDistro, DistroClampError, Host};
use crate::keys::{PackageKind, PackageString};
use crate::srcinfo::SrcInfo;
use crate::text::{ends_with, join2, str_ends_with};
use vstd::prelude::*;

verus! {

/// Checks the `source` field of a package of kind `Deb`.
#[derive(Debug, Clone, Copy)]
pub struct DebSource;

/// What is wrong with the source of a `Deb` package.
#[derive(Debug)]
pub enum DebSourceError {
    /// The one source, which the named variable holds, is no `.deb` file.
    NonDeb(String),
    /// There is more than one source; the named variable holds the second.
    Singular(String),
    /// The host's distribution could not be told.
    DistroClampError(DistroClampError),
}

/// The two ways in which the sources can be at fault.
#[derive(Debug, Clone, Copy, PartialEq, Eq, Structural)]
pub enum DebFault {
    Singular,
    NonDeb,
}

impl DebSourceError {
    /// The error says that the variable `label` has the fault `fault`.
    pub open spec fn reports(self, fault: DebFault, label: Seq<char>) -> bool {
        match self {
            DebSourceError::NonDeb(l) => fault == DebFault::NonDeb && l@ == label,
            DebSourceError::Singular(l) => fault == DebFault::Singular && l@ == label,
            DebSourceError::DistroClampError(_) => false,
        }
    }
}

/// The name of the variable that the entries tagged `tag` came from.
pub open spec fn label_spec(tag: ArchDistro) -> Seq<char> {
    if tag.is_enhanced_spec() {
        "source_"@ + tag.suffix_spec()
    } else {
        "source"@
    }
}

/// Index of the first entry from `from` on that holds on `host`, or the
/// number of entries where there is none.
pub open spec fn first_applicable_from(entries: Seq<(ArchDistro, String)>, host: Host, from: int)
    -> int
    decreases entries.len() - from,
{
    if from < 0 || from >= entries.len() {
        entries.len() as int
    } else if entries[from].0.applies_spec(host) {
        from
    } else {
        first_applicable_from(entries, host, from + 1)
    }
}

/// What the check finds in the sources: nothing where no entry holds on
/// `host`; a second entry that holds on `host`, which is one too many;
/// or the one entry that holds on `host`, where it does not end in
/// `.deb`.
pub open spec fn verdict(entries: Seq<(ArchDistro, String)>, host: Host) -> Option<(DebFault, int)> {
    let n = entries.len() as int;
    let first = first_applicable_from(entries, host, 0);
    let second = first_applicable_from(entries, host, first + 1);
    if first >= n {
        None
    } else if second < n {
        Some((DebFault::Singular, second))
    } else if !ends_with(entries[first].1@, ".deb"@) {
        Some((DebFault::NonDeb, first))
    } else {
        None
    }
}

/// What `first_applicable_from` finds is the first entry at or after
/// `from` that holds on `host`.
pub proof fn lemma_first_applicable(entries: Seq<(ArchDistro, String)>, host: Host, from: int)
    requires
        0 <= from <= entries.len(),
    ensures
        from <= first_applicable_from(entries, host, from) <= entries.len(),
        first_applicable_from(entries, host, from) < entries.len() ==> entries[first_applicable_from(
            entries,
            host,
            from,
        )].0.applies_spec(host),
        forall|j: int|
            from <= j < first_applicable_from(entries, host, from) ==> !(
            #[trigger] entries[j]).0.applies_spec(host),
    decreases entries.len() - from,
{
    if from < entries.len() && !entries[from].0.applies_spec(host) {
        lemma_first_applicable(entries, host, from + 1);
    }
}

/// The sources pass exactly if no entry holds on `host`, or one alone
/// does and ends in `.deb`.
pub proof fn lemma_verdict_counts(entries: Seq<(ArchDistro, String)>, host: Host)
    ensures
        verdict(entries, host) is None <==> (forall|j: int|
            0 <= j < entries.len() ==> !(#[trigger] entries[j]).0.applies_spec(host)) || (exists|
            i: int,
        |
            0 <= i < entries.len() && (#[trigger] entries[i]).0.applies_spec(host) && ends_with(
                entries[i].1@,
                ".deb"@,
            ) && forall|j: int|
                0 <= j < entries.len() && j != i ==> !(#[trigger] entries[j]).0.applies_spec(host)),
{
    let n = entries.len() as int;
    lemma_first_applicable(entries, host, 0);
    let first = first_applicable_from(entries, host, 0);
    if first < n {
        lemma_first_applicable(entries, host, first + 1);
        let second = first_applicable_from(entries, host, first + 1);
        assert(entries[first].0.applies_spec(host));
        if second < n {
            assert(entries[second].0.applies_spec(host));
        }
    }
}

impl DebSource {
    /// The name of the variable that the entries tagged `tag` came from.
    pub fn label(tag: &ArchDistro) -> (r: String)
        ensures
            r@ == label_spec(*tag),
    {
        if tag.is_enhanced() {
            let suffix = tag.suffix();
            join2("source_", suffix.as_str())
        } else {
            "source".to_owned()
        }
    }

    /// Position of the first entry from `from` on that holds on `host`,
    /// or the number of entries.
    fn next_applicable(entries: &Vec<(ArchDistro, String)>, host: &Host, from: usize) -> (r: usize)
        requires
            from <= entries@.len(),
        ensures
            r == first_applicable_from(entries@, *host, from as int),
            from <= r <= entries@.len(),
    {
        let n: usize = entries.len();
        let mut i: usize = from;
        while i < n
            invariant
                n == entries@.len(),
                from <= i <= n,
                first_applicable_from(entries@, *host, from as int) == first_applicable_from(
                    entries@,
                    *host,
                    i as int,
                ),
            decreases n - i,
        {
            if entries[i].0.applies(host) {
                return i;
            }
            i += 1;
        }
        i
    }

    /// Holds the sources that hold on `host` to the rule: there is at
    /// most one of them, and it ends in `.deb`.
    pub fn check_sources(entries: &Vec<(ArchDistro, String)>, host: &Host) -> (r: Result<
        (),
        DebSourceError,
    >)
        ensures
            match verdict(entries@, *host) {
                None => r is Ok,
                Some((fault, i)) => r matches Err(e) && e.reports(fault, label_spec(entries@[i].0)),
            },
    {
        let n: usize = entries.len();
        let first = Self::next_applicable(entries, host, 0);
        if first >= n {
            return Ok(());
        }
        let second = Self::next_applicable(entries, host, first + 1);
        if second < n {
            return Err(DebSourceError::Singular(Self::label(&entries[second].0)));
        }
        if !str_ends_with(entries[first].1.as_str(), ".deb") {
            return Err(DebSourceError::NonDeb(Self::label(&entries[first].0)));
        }
        Ok(())
    }
}

impl Check for DebSource {
    type Error = DebSourceError;

    open spec fn admits(&self, pkgchild: &PackageString, srcinfo: &SrcInfo) -> bool {
        true
    }

    /// The name of this check.
    fn name(&self) -> (r: &'static str)
        ensures
            r@ == "deb source"@,
    {
        "deb source"
    }

    /// Checks the sources of a package of kind `Deb`; any other kind
    /// passes unseen.
    fn check(&self, pkgchild: &PackageString, srcinfo: &SrcInfo, host: &Host) -> (r: Result<
        (),
        DebSourceError,
    >)
        ensures
            pkgchild.kind != PackageKind::Deb ==> r is Ok,
            pkgchild.kind == PackageKind::Deb ==> match verdict(srcinfo.pkgbase.source@, *host) {
                None => r is Ok,
                Some((fault, i)) => r matches Err(e) && e.reports(
                    fault,
                    label_spec(srcinfo.pkgbase.source@[i].0),
                ),
            },
    {
        if pkgchild.split().1 != PackageKind::Deb {
            return Ok(());
        }
        Self::check_sources(&srcinfo.pkgbase.source, host)
    }
}

} // verus!
