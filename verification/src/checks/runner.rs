//! Runs the checks in order and stops at the first that fails.

use crate::checks::Check;
use crate::checks::deb::{DebSource, DebSourceError};
use crate::checks::gives::{entries_of, verdict, Gives, GivesError};
use crate::checks::hash::{error_for, verdict_from, HashError};
use crate::checks::incompatible::{first_shared_from, Incompatible, IncompatibleError};
use crate::checks::kver::{constraint_prefixed, Kver, KverError};
use crate::checks::mask::{first_empty_from, Mask, MaskError};
use crate::checks::pacname::{Pacname, PacnameError};
use crate::checks::pkgdesc::{description_of, Pkgdesc, PkgdescError};
use crate::clamp::{DistroClampError, Host};
use crate::keys::{PackageKind, PackageString};
use crate::checks::pkgver::Pkgver;
use crate::report::pkgver::{first_fault, PkgverError};
use crate::rules::first_broken;
use crate::srcinfo::SrcInfo;
use std::time::{Duration, Instant};
use vstd::prelude::*;
use vstd::std_specs::convert::FromSpecImpl;

verus! {

/// A reading of the clock; nothing of it is looked into.
#[verifier::external_type_specification]
#[verifier::external_body]
pub struct ExInstant(Instant);

/// Calls `Instant::now`. What the clock shows is not a matter of the
/// arguments, so nothing is promised of it.
#[verifier::external_body]
fn clock_now() -> (r: Instant) {
    Instant::now()
}

/// Calls `Instant::elapsed`, the time gone by since `since` was read; it
/// is zero where the clock has gone backwards. Nothing is promised of
/// it.
#[verifier::external_body]
fn clock_elapsed(since: &Instant) -> (r: Duration) {
    since.elapsed()
}

/// The checks that there are.
#[derive(Debug, Clone, Copy, PartialEq, Eq, Structural)]
pub enum CheckKind {
    Pacname,
    Pkgver,
    Gives,
    Hash,
    DebSource,
    Pkgdesc,
    Incompatible,
    Mask,
    Kver,
}

/// What any of the checks can find wrong: the error of the check that
/// failed, whole.
#[derive(Debug)]
pub enum CheckError {
    Pacname(PacnameError),
    Pkgver(PkgverError),
    Gives(GivesError),
    Hash(HashError),
    DebSource(DebSourceError),
    Pkgdesc(PkgdescError),
    IncompatibleError(IncompatibleError),
    Mask(MaskError),
    Kver(KverError),
    DistroClampError(DistroClampError),
}

impl From<PacnameError> for CheckError {
    fn from(value: PacnameError) -> (r: Self) {
        CheckError::Pacname(value)
    }
}

impl FromSpecImpl<PacnameError> for CheckError {
    open spec fn obeys_from_spec() -> bool {
        true
    }

    open spec fn from_spec(value: PacnameError) -> Self {
        CheckError::Pacname(value)
    }
}

impl From<PkgverError> for CheckError {
    fn from(value: PkgverError) -> (r: Self) {
        CheckError::Pkgver(value)
    }
}

impl FromSpecImpl<PkgverError> for CheckError {
    open spec fn obeys_from_spec() -> bool {
        true
    }

    open spec fn from_spec(value: PkgverError) -> Self {
        CheckError::Pkgver(value)
    }
}

impl From<GivesError> for CheckError {
    fn from(value: GivesError) -> (r: Self) {
        CheckError::Gives(value)
    }
}

impl FromSpecImpl<GivesError> for CheckError {
    open spec fn obeys_from_spec() -> bool {
        true
    }

    open spec fn from_spec(value: GivesError) -> Self {
        CheckError::Gives(value)
    }
}

impl From<HashError> for CheckError {
    fn from(value: HashError) -> (r: Self) {
        CheckError::Hash(value)
    }
}

impl FromSpecImpl<HashError> for CheckError {
    open spec fn obeys_from_spec() -> bool {
        true
    }

    open spec fn from_spec(value: HashError) -> Self {
        CheckError::Hash(value)
    }
}

impl From<DebSourceError> for CheckError {
    fn from(value: DebSourceError) -> (r: Self) {
        CheckError::DebSource(value)
    }
}

impl FromSpecImpl<DebSourceError> for CheckError {
    open spec fn obeys_from_spec() -> bool {
        true
    }

    open spec fn from_spec(value: DebSourceError) -> Self {
        CheckError::DebSource(value)
    }
}

impl From<PkgdescError> for CheckError {
    fn from(value: PkgdescError) -> (r: Self) {
        CheckError::Pkgdesc(value)
    }
}

impl FromSpecImpl<PkgdescError> for CheckError {
    open spec fn obeys_from_spec() -> bool {
        true
    }

    open spec fn from_spec(value: PkgdescError) -> Self {
        CheckError::Pkgdesc(value)
    }
}

impl From<IncompatibleError> for CheckError {
    fn from(value: IncompatibleError) -> (r: Self) {
        CheckError::IncompatibleError(value)
    }
}

impl FromSpecImpl<IncompatibleError> for CheckError {
    open spec fn obeys_from_spec() -> bool {
        true
    }

    open spec fn from_spec(value: IncompatibleError) -> Self {
        CheckError::IncompatibleError(value)
    }
}

impl From<MaskError> for CheckError {
    fn from(value: MaskError) -> (r: Self) {
        CheckError::Mask(value)
    }
}

impl FromSpecImpl<MaskError> for CheckError {
    open spec fn obeys_from_spec() -> bool {
        true
    }

    open spec fn from_spec(value: MaskError) -> Self {
        CheckError::Mask(value)
    }
}

impl From<KverError> for CheckError {
    fn from(value: KverError) -> (r: Self) {
        CheckError::Kver(value)
    }
}

impl FromSpecImpl<KverError> for CheckError {
    open spec fn obeys_from_spec() -> bool {
        true
    }

    open spec fn from_spec(value: KverError) -> Self {
        CheckError::Kver(value)
    }
}

impl From<DistroClampError> for CheckError {
    fn from(value: DistroClampError) -> (r: Self) {
        CheckError::DistroClampError(value)
    }
}

impl FromSpecImpl<DistroClampError> for CheckError {
    open spec fn obeys_from_spec() -> bool {
        true
    }

    open spec fn from_spec(value: DistroClampError) -> Self {
        CheckError::DistroClampError(value)
    }
}

/// Why a package could not be built.
#[derive(Debug)]
pub enum BuildError {
    CheckError(CheckError),
}

impl From<CheckError> for BuildError {
    fn from(value: CheckError) -> (r: Self) {
        BuildError::CheckError(value)
    }
}

impl FromSpecImpl<CheckError> for BuildError {
    open spec fn obeys_from_spec() -> bool {
        true
    }

    open spec fn from_spec(value: CheckError) -> Self {
        BuildError::CheckError(value)
    }
}

/// An ordered list of checks, and whether a report of how long each of
/// them took is wanted behind a run in which all of them pass.
#[derive(Debug)]
pub struct Checks {
    pub checks: Vec<CheckKind>,
    pub timings: bool,
}

/// The check `kind` finds nothing wrong with `pkg` in `srcinfo` on `host`.
pub open spec fn passes(kind: CheckKind, pkg: PackageString, srcinfo: SrcInfo, host: Host) -> bool {
    match kind {
        CheckKind::Pacname => first_broken(pkg@) is None,
        CheckKind::Pkgver => first_fault(srcinfo.pkgbase.pkgver@) is None,
        CheckKind::Gives => if entries_of(srcinfo, pkg@).len() > 0 {
            verdict(entries_of(srcinfo, pkg@), host) is None
        } else {
            pkg.kind != PackageKind::Deb
        },
        CheckKind::Hash => verdict_from(srcinfo.pkgbase, 0) is None,
        CheckKind::DebSource => pkg.kind != PackageKind::Deb || crate::checks::deb::verdict(
            srcinfo.pkgbase.source@,
            host,
        ) is None,
        CheckKind::Pkgdesc => description_of(srcinfo, pkg@).len() > 0,
        CheckKind::Incompatible => first_shared_from(
            srcinfo.pkgbase.incompatible@,
            srcinfo.pkgbase.compatible@,
            0,
        ) >= srcinfo.pkgbase.incompatible@.len(),
        CheckKind::Mask => first_empty_from(srcinfo.pkgbase.mask@, 0)
            >= srcinfo.pkgbase.mask@.len(),
        CheckKind::Kver => match srcinfo.pkgbase.kver {
            None => true,
            Some(kver) => constraint_prefixed(kver@),
        },
    }
}

impl CheckError {
    /// The check that the error came from, if it came from a check.
    pub open spec fn family(self) -> Option<CheckKind> {
        match self {
            CheckError::Pacname(_) => Some(CheckKind::Pacname),
            CheckError::Pkgver(_) => Some(CheckKind::Pkgver),
            CheckError::Gives(_) => Some(CheckKind::Gives),
            CheckError::Hash(_) => Some(CheckKind::Hash),
            CheckError::DebSource(_) => Some(CheckKind::DebSource),
            CheckError::Pkgdesc(_) => Some(CheckKind::Pkgdesc),
            CheckError::IncompatibleError(_) => Some(CheckKind::Incompatible),
            CheckError::Mask(_) => Some(CheckKind::Mask),
            CheckError::Kver(_) => Some(CheckKind::Kver),
            CheckError::DistroClampError(_) => None,
        }
    }

    /// The error carries what its check found wrong with `pkg` in
    /// `srcinfo` on `host`: the field, the value and the rule that each
    /// check's own error reports.
    pub open spec fn faithful(self, pkg: PackageString, srcinfo: SrcInfo, host: Host) -> bool {
        match self {
            CheckError::Pacname(e) => first_broken(pkg@) matches Some(rule) && e.reports(
                rule,
                pkg@,
            ),
            CheckError::Pkgver(e) => first_fault(srcinfo.pkgbase.pkgver@) == Some(e),
            CheckError::Gives(e) => {
                let entries = entries_of(srcinfo, pkg@);
                if entries.len() > 0 {
                    verdict(entries, host) matches Some((rule, i)) && e.reports(rule, entries[i].1@)
                } else {
                    e.reports_missing()
                }
            },
            CheckError::Hash(e) => verdict_from(srcinfo.pkgbase, 0) matches Some((kind, i)) && e
                == error_for(srcinfo.pkgbase, kind, i),
            CheckError::DebSource(e) => crate::checks::deb::verdict(
                srcinfo.pkgbase.source@,
                host,
            ) matches Some((fault, i)) && e.reports(
                fault,
                crate::checks::deb::label_spec(srcinfo.pkgbase.source@[i].0),
            ),
            CheckError::Pkgdesc(e) => e.reports_empty(pkg@),
            CheckError::IncompatibleError(e) => {
                let i = first_shared_from(
                    srcinfo.pkgbase.incompatible@,
                    srcinfo.pkgbase.compatible@,
                    0,
                );
                i < srcinfo.pkgbase.incompatible@.len() && e.reports(
                    srcinfo.pkgbase.incompatible@[i],
                )
            },
            CheckError::Mask(e) => e.reports(first_empty_from(srcinfo.pkgbase.mask@, 0)),
            CheckError::Kver(e) => srcinfo.pkgbase.kver matches Some(kver) && e.reports(kver@),
            CheckError::DistroClampError(_) => false,
        }
    }
}

/// Index of the first check from `from` on that does not pass, or the
/// number of checks where every one passes.
pub open spec fn first_failing_from(
    checks: Seq<CheckKind>,
    pkg: PackageString,
    srcinfo: SrcInfo,
    host: Host,
    from: int,
) -> int
    decreases checks.len() - from,
{
    if from < 0 || from >= checks.len() {
        checks.len() as int
    } else if !passes(checks[from], pkg, srcinfo, host) {
        from
    } else {
        first_failing_from(checks, pkg, srcinfo, host, from + 1)
    }
}

impl CheckKind {
    /// The check may be asked about `pkg` in `srcinfo`: the two checks
    /// that look a package up may only be asked about a name that the
    /// manifest knows.
    pub open spec fn admits(self, pkg: PackageString, srcinfo: SrcInfo) -> bool {
        match self {
            CheckKind::Pacname => srcinfo.knows(pkg@),
            CheckKind::Pkgdesc => srcinfo.knows(pkg@),
            _ => true,
        }
    }

    /// What the check is called in a report.
    pub open spec fn name_spec(self) -> Seq<char> {
        match self {
            CheckKind::Pacname => "pacname"@,
            CheckKind::Pkgver => "pkgver"@,
            CheckKind::Gives => "gives"@,
            CheckKind::Hash => "hash"@,
            CheckKind::DebSource => "deb source"@,
            CheckKind::Pkgdesc => "pkgdesc"@,
            CheckKind::Incompatible => "incompatible/compatible"@,
            CheckKind::Mask => "mask"@,
            CheckKind::Kver => "kver"@,
        }
    }

    /// What the check is called in a report.
    pub fn name(&self) -> (r: &'static str)
        ensures
            r@ == self.name_spec(),
    {
        match self {
            CheckKind::Pacname => Pacname.name(),
            CheckKind::Pkgver => Pkgver.name(),
            CheckKind::Gives => Gives.name(),
            CheckKind::Hash => crate::checks::hash::Hash.name(),
            CheckKind::DebSource => DebSource.name(),
            CheckKind::Pkgdesc => Pkgdesc.name(),
            CheckKind::Incompatible => Incompatible.name(),
            CheckKind::Mask => Mask.name(),
            CheckKind::Kver => Kver.name(),
        }
    }

    /// Runs this check and lifts what it finds into the shared error.
    pub fn check(&self, pkgchild: &PackageString, srcinfo: &SrcInfo, host: &Host) -> (r: Result<
        (),
        CheckError,
    >)
        requires
            self.admits(*pkgchild, *srcinfo),
        ensures
            r is Ok <==> passes(*self, *pkgchild, *srcinfo, *host),
            r matches Err(e) ==> e.family() == Some(*self) && e.faithful(
                *pkgchild,
                *srcinfo,
                *host,
            ),
    {
        match self {
            CheckKind::Pacname => match Pacname.check(pkgchild, srcinfo, host) {
                Ok(_) => Ok(()),
                Err(e) => Err(CheckError::from(e)),
            },
            CheckKind::Pkgver => match Pkgver.check(pkgchild, srcinfo, host) {
                Ok(_) => Ok(()),
                Err(e) => Err(CheckError::from(e)),
            },
            CheckKind::Gives => match Gives.check(pkgchild, srcinfo, host) {
                Ok(_) => Ok(()),
                Err(e) => Err(CheckError::from(e)),
            },
            CheckKind::Hash => match crate::checks::hash::Hash.check(pkgchild, srcinfo, host) {
                Ok(_) => Ok(()),
                Err(e) => Err(CheckError::from(e)),
            },
            CheckKind::DebSource => match DebSource.check(pkgchild, srcinfo, host) {
                Ok(_) => Ok(()),
                Err(e) => Err(CheckError::from(e)),
            },
            CheckKind::Pkgdesc => match Pkgdesc.check(pkgchild, srcinfo, host) {
                Ok(_) => Ok(()),
                Err(e) => Err(CheckError::from(e)),
            },
            CheckKind::Incompatible => match Incompatible.check(pkgchild, srcinfo, host) {
                Ok(_) => Ok(()),
                Err(e) => Err(CheckError::from(e)),
            },
            CheckKind::Mask => match Mask.check(pkgchild, srcinfo, host) {
                Ok(_) => Ok(()),
                Err(e) => Err(CheckError::from(e)),
            },
            CheckKind::Kver => match Kver.check(pkgchild, srcinfo, host) {
                Ok(_) => Ok(()),
                Err(e) => Err(CheckError::from(e)),
            },
        }
    }
}

impl Default for Checks {
    /// Every check, in the order in which a manifest is held to them.
    fn default() -> (r: Self)
        ensures
            !r.timings,
            r.checks@ == seq![
                CheckKind::Pacname,
                CheckKind::Pkgver,
                CheckKind::Gives,
                CheckKind::Hash,
                CheckKind::DebSource,
                CheckKind::Pkgdesc,
                CheckKind::Incompatible,
                CheckKind::Mask,
                CheckKind::Kver,
            ],
    {
        let mut checks: Vec<CheckKind> = Vec::new();
        checks.push(CheckKind::Pacname);
        checks.push(CheckKind::Pkgver);
        checks.push(CheckKind::Gives);
        checks.push(CheckKind::Hash);
        checks.push(CheckKind::DebSource);
        checks.push(CheckKind::Pkgdesc);
        checks.push(CheckKind::Incompatible);
        checks.push(CheckKind::Mask);
        checks.push(CheckKind::Kver);
        assert(checks@ =~= seq![
            CheckKind::Pacname,
            CheckKind::Pkgver,
            CheckKind::Gives,
            CheckKind::Hash,
            CheckKind::DebSource,
            CheckKind::Pkgdesc,
            CheckKind::Incompatible,
            CheckKind::Mask,
            CheckKind::Kver,
        ]);
        Checks { checks, timings: false }
    }
}

impl Checks {
    /// Every check of the list may be asked about `pkg` in `srcinfo`.
    pub open spec fn admits(self, pkg: PackageString, srcinfo: SrcInfo) -> bool {
        forall|i: int| 0 <= i < self.checks@.len() ==> (#[trigger] self.checks@[i]).admits(pkg, srcinfo)
    }

    /// The checks of `checks`, in that order.
    pub fn new(checks: Vec<CheckKind>) -> (r: Self)
        ensures
            r.checks == checks,
            !r.timings,
    {
        Checks { checks, timings: false }
    }

    /// The same checks, with the report of timings asked for or not. What
    /// a run finds does not depend on it.
    pub fn with_timings(self, timings: bool) -> (r: Self)
        ensures
            r.checks == self.checks,
            r.timings == timings,
    {
        Checks { checks: self.checks, timings }
    }

    /// How many checks there are.
    pub fn len(&self) -> (r: usize)
        ensures
            r == self.checks@.len(),
    {
        self.checks.len()
    }

    /// The check in place `i`.
    pub fn kind_at(&self, i: usize) -> (r: CheckKind)
        requires
            i < self.checks@.len(),
        ensures
            r == self.checks@[i as int],
    {
        self.checks[i]
    }

    /// Runs the checks in order until one fails, and takes the time of
    /// each. Hands back the names of the checks that passed, each with the
    /// time it took, and the error of the one that failed; no check behind
    /// that one runs.
    pub fn run_timed(&self, pkgchild: &PackageString, srcinfo: &SrcInfo, host: &Host) -> (r: (
        Vec<(&'static str, Duration)>,
        Result<(), CheckError>,
    ))
        requires
            self.admits(*pkgchild, *srcinfo),
        ensures
            ({
                let k = first_failing_from(self.checks@, *pkgchild, *srcinfo, *host, 0);
                let n = self.checks@.len() as int;
                &&& 0 <= k <= n
                &&& r.1 is Ok <==> k == n
                &&& r.1 matches Err(e) ==> e.family() == Some(self.checks@[k]) && e.faithful(
                    *pkgchild,
                    *srcinfo,
                    *host,
                )
                &&& r.0@.len() == k
                &&& forall|i: int|
                    0 <= i < k ==> (#[trigger] r.0@[i]).0@ == self.checks@[i].name_spec()
            }),
    {
        let n: usize = self.checks.len();
        let mut timings: Vec<(&'static str, Duration)> = Vec::new();
        let mut i: usize = 0;
        while i < n
            invariant
                n == self.checks@.len(),
                i <= n,
                self.admits(*pkgchild, *srcinfo),
                first_failing_from(self.checks@, *pkgchild, *srcinfo, *host, 0)
                    == first_failing_from(self.checks@, *pkgchild, *srcinfo, *host, i as int),
                timings@.len() == i,
                forall|j: int|
                    0 <= j < i ==> (#[trigger] timings@[j]).0@ == self.checks@[j].name_spec(),
            decreases n - i,
        {
            let check = self.checks[i];
            let started = clock_now();
            match check.check(pkgchild, srcinfo, host) {
                Ok(_) => {},
                Err(e) => {
                    return (timings, Err(e));
                },
            }
            timings.push((check.name(), clock_elapsed(&started)));
            i += 1;
        }
        (timings, Ok(()))
    }

    /// Runs the checks in order until one fails. Hands back the names of
    /// the checks that ran, the failing one last, and the error of the
    /// failing one; no check behind it runs.
    pub fn run_traced(&self, pkgchild: &PackageString, srcinfo: &SrcInfo, host: &Host) -> (r: (
        Vec<&'static str>,
        Result<(), CheckError>,
    ))
        requires
            self.admits(*pkgchild, *srcinfo),
        ensures
            ({
                let k = first_failing_from(self.checks@, *pkgchild, *srcinfo, *host, 0);
                let n = self.checks@.len() as int;
                &&& 0 <= k <= n
                &&& r.1 is Ok <==> k == n
                &&& r.1 matches Err(e) ==> e.family() == Some(self.checks@[k]) && e.faithful(
                    *pkgchild,
                    *srcinfo,
                    *host,
                )
                &&& r.0@.len() == if k < n {
                    k + 1
                } else {
                    n
                }
                &&& forall|i: int|
                    0 <= i < r.0@.len() ==> (#[trigger] r.0@[i])@ == self.checks@[i].name_spec()
            }),
    {
        let (timings, outcome) = self.run_timed(pkgchild, srcinfo, host);
        let passed: usize = timings.len();
        let mut ran: Vec<&'static str> = Vec::new();
        let mut i: usize = 0;
        while i < passed
            invariant
                passed == timings@.len(),
                passed <= self.checks@.len(),
                i <= passed,
                ran@.len() == i,
                forall|j: int|
                    0 <= j < passed ==> (#[trigger] timings@[j]).0@
                        == self.checks@[j].name_spec(),
                forall|j: int| 0 <= j < i ==> (#[trigger] ran@[j])@ == self.checks@[j].name_spec(),
            decreases passed - i,
        {
            ran.push(timings[i].0);
            i += 1;
        }
        if outcome.is_err() {
            ran.push(self.checks[passed].name());
        }
        (ran, outcome)
    }

    /// Runs the checks in order and stops at the first that fails, whose
    /// error it hands back.
    pub fn run(&self, pkgchild: &PackageString, srcinfo: &SrcInfo, host: &Host) -> (r: Result<
        (),
        CheckError,
    >)
        requires
            self.admits(*pkgchild, *srcinfo),
        ensures
            ({
                let k = first_failing_from(self.checks@, *pkgchild, *srcinfo, *host, 0);
                &&& r is Ok <==> k == self.checks@.len()
                &&& r matches Err(e) ==> k < self.checks@.len() && e.family() == Some(
                    self.checks@[k],
                ) && e.faithful(*pkgchild, *srcinfo, *host)
            }),
    {
        self.run_traced(pkgchild, srcinfo, host).1
    }
}

/// Whether timings are asked for makes no difference to what a run
/// finds: two lists of the same checks stop at the same check.
pub proof fn lemma_timings_do_not_matter(
    a: Checks,
    b: Checks,
    pkg: PackageString,
    srcinfo: SrcInfo,
    host: Host,
)
    requires
        a.checks@ == b.checks@,
    ensures
        first_failing_from(a.checks@, pkg, srcinfo, host, 0) == first_failing_from(
            b.checks@,
            pkg,
            srcinfo,
            host,
            0,
        ),
{
}

/// What `first_failing_from` finds is the first check at or after `from`
/// that does not pass: every check before it passes.
pub proof fn lemma_first_failing(
    checks: Seq<CheckKind>,
    pkg: PackageString,
    srcinfo: SrcInfo,
    host: Host,
    from: int,
)
    requires
        0 <= from <= checks.len(),
    ensures
        from <= first_failing_from(checks, pkg, srcinfo, host, from) <= checks.len(),
        first_failing_from(checks, pkg, srcinfo, host, from) < checks.len() ==> !passes(
            checks[first_failing_from(checks, pkg, srcinfo, host, from)],
            pkg,
            srcinfo,
            host,
        ),
        forall|j: int|
            from <= j < first_failing_from(checks, pkg, srcinfo, host, from) ==> passes(
                #[trigger] checks[j],
                pkg,
                srcinfo,
                host,
            ),
    decreases checks.len() - from,
{
    if from < checks.len() && passes(checks[from], pkg, srcinfo, host) {
        lemma_first_failing(checks, pkg, srcinfo, host, from + 1);
    }
}

} // verus!
