//! The two lists of distributions that a package runs on and does not run
//! on.

use crate::checks::Check;
use crate::clamp::{DistroClamp, Host};
use crate::keys::PackageString;
use crate::srcinfo::SrcInfo;
use crate::text::join2;
use vstd::prelude::*;

verus! {

/// Checks that no distribution is listed both as compatible and as
/// incompatible.
#[derive(Debug, Clone, Copy)]
pub struct Incompatible;

/// The two fields of a clamp and nothing else, for an error to carry.
#[derive(Debug, PartialEq, Eq, Clone, Hash)]
pub struct LeanClamp {
    pub distro: String,
    pub version: String,
}

/// What is wrong with the two lists.
#[derive(Debug, PartialEq, Eq)]
pub enum IncompatibleError {
    Duplicate { clamp: LeanClamp, first: &'static str, second: &'static str },
}

impl LeanClamp {
    /// The fields of `value`.
    pub fn from_clamp(value: &DistroClamp) -> (r: LeanClamp)
        ensures
            r.distro@ == value.distro@,
            r.version@ == value.version@,
    {
        LeanClamp { distro: value.distro.clone(), version: value.version.clone() }
    }

    /// The clamp as it is written: distribution, colon, version.
    pub fn text(&self) -> (r: String)
        ensures
            r@ == self.distro@ + ":"@ + self.version@,
    {
        let head = join2(self.distro.as_str(), ":");
        join2(head.as_str(), self.version.as_str())
    }
}

impl IncompatibleError {
    /// The error says that `clamp` stands in both lists.
    pub open spec fn reports(self, clamp: DistroClamp) -> bool {
        match self {
            IncompatibleError::Duplicate { clamp: c, first, second } => {
                &&& c.distro@ == clamp.distro@
                &&& c.version@ == clamp.version@
                &&& first@ == "compatible"@
                &&& second@ == "incompatible"@
            },
        }
    }
}

/// Index of the first clamp of `list` from `from` on that is literally
/// `clamp`, or the length of `list` where there is none.
pub open spec fn first_literal_from(list: Seq<DistroClamp>, clamp: DistroClamp, from: int) -> int
    decreases list.len() - from,
{
    if from < 0 || from >= list.len() {
        list.len() as int
    } else if list[from].lit_eq_spec(clamp) {
        from
    } else {
        first_literal_from(list, clamp, from + 1)
    }
}

/// Index of the first clamp of `incompatible` from `from` on that stands
/// literally in `compatible` too, or the length of `incompatible`.
pub open spec fn first_shared_from(
    incompatible: Seq<DistroClamp>,
    compatible: Seq<DistroClamp>,
    from: int,
) -> int
    decreases incompatible.len() - from,
{
    if from < 0 || from >= incompatible.len() {
        incompatible.len() as int
    } else if first_literal_from(compatible, incompatible[from], 0) < compatible.len() {
        from
    } else {
        first_shared_from(incompatible, compatible, from + 1)
    }
}

/// What `first_literal_from` finds is the first literal match at or after
/// `from`.
pub proof fn lemma_first_literal(list: Seq<DistroClamp>, clamp: DistroClamp, from: int)
    requires
        0 <= from <= list.len(),
    ensures
        from <= first_literal_from(list, clamp, from) <= list.len(),
        first_literal_from(list, clamp, from) < list.len() ==> list[first_literal_from(
            list,
            clamp,
            from,
        )].lit_eq_spec(clamp),
        forall|j: int|
            from <= j < first_literal_from(list, clamp, from) ==> !(#[trigger] list[j]).lit_eq_spec(
                clamp,
            ),
    decreases list.len() - from,
{
    if from < list.len() && !list[from].lit_eq_spec(clamp) {
        lemma_first_literal(list, clamp, from + 1);
    }
}

/// What `first_shared_from` finds is the first clamp at or after `from`
/// that both lists hold.
pub proof fn lemma_first_shared(
    incompatible: Seq<DistroClamp>,
    compatible: Seq<DistroClamp>,
    from: int,
)
    requires
        0 <= from <= incompatible.len(),
    ensures
        from <= first_shared_from(incompatible, compatible, from) <= incompatible.len(),
        forall|j: int|
            from <= j < first_shared_from(incompatible, compatible, from) ==> first_literal_from(
                compatible,
                #[trigger] incompatible[j],
                0,
            ) >= compatible.len(),
    decreases incompatible.len() - from,
{
    if from < incompatible.len() && first_literal_from(compatible, incompatible[from], 0)
        >= compatible.len() {
        lemma_first_shared(incompatible, compatible, from + 1);
    }
}

/// No clamp stands in both lists exactly if no pair of clamps, one from
/// each list, is literally equal.
pub proof fn lemma_no_shared_iff_disjoint(
    incompatible: Seq<DistroClamp>,
    compatible: Seq<DistroClamp>,
)
    ensures
        first_shared_from(incompatible, compatible, 0) == incompatible.len() <==> forall|
            i: int,
            j: int,
        |
            0 <= i < incompatible.len() && 0 <= j < compatible.len() ==> !(
            #[trigger] compatible[j]).lit_eq_spec(#[trigger] incompatible[i]),
{
    lemma_first_shared(incompatible, compatible, 0);
    let k = first_shared_from(incompatible, compatible, 0);
    if k == incompatible.len() {
        assert forall|i: int, j: int|
            0 <= i < incompatible.len() && 0 <= j < compatible.len() implies !(
        #[trigger] compatible[j]).lit_eq_spec(#[trigger] incompatible[i]) by {
            lemma_first_literal(compatible, incompatible[i], 0);
        }
    } else {
        lemma_shared_is_hit(incompatible, compatible, 0);
        lemma_first_literal(compatible, incompatible[k], 0);
        let j = first_literal_from(compatible, incompatible[k], 0);
        assert(compatible[j].lit_eq_spec(incompatible[k]));
    }
}

/// Where `first_shared_from` stops before the end, the clamp it stops at
/// stands in `compatible`.
pub proof fn lemma_shared_is_hit(
    incompatible: Seq<DistroClamp>,
    compatible: Seq<DistroClamp>,
    from: int,
)
    requires
        0 <= from <= incompatible.len(),
    ensures
        first_shared_from(incompatible, compatible, from) < incompatible.len()
            ==> first_literal_from(
            compatible,
            incompatible[first_shared_from(incompatible, compatible, from)],
            0,
        ) < compatible.len(),
    decreases incompatible.len() - from,
{
    if from < incompatible.len() && first_literal_from(compatible, incompatible[from], 0)
        >= compatible.len() {
        lemma_shared_is_hit(incompatible, compatible, from + 1);
    }
}

impl Incompatible {
    /// Position in `list` of the first clamp that is literally `clamp`.
    fn find_literal(list: &Vec<DistroClamp>, clamp: &DistroClamp) -> (r: Option<usize>)
        ensures
            r is Some <==> first_literal_from(list@, *clamp, 0) < list@.len(),
            r matches Some(j) ==> j == first_literal_from(list@, *clamp, 0) && j < list@.len(),
    {
        let n: usize = list.len();
        let mut j: usize = 0;
        while j < n
            invariant
                n == list@.len(),
                j <= n,
                first_literal_from(list@, *clamp, 0) == first_literal_from(list@, *clamp, j as int),
            decreases n - j,
        {
            if list[j].lit_eq(clamp) {
                return Some(j);
            }
            j += 1;
        }
        None
    }

    /// The first clamp of `incompatible` that stands literally in
    /// `compatible` too: a copy of the first clamp of `compatible` that is
    /// literally equal to it. A `*` is a character like any other here:
    /// it matches only another `*`.
    pub fn duplicates(incompatible: &Vec<DistroClamp>, compatible: &Vec<DistroClamp>) -> (r: Option<
        DistroClamp,
    >)
        ensures
            r is Some <==> first_shared_from(incompatible@, compatible@, 0) < incompatible@.len(),
            r matches Some(c) ==> {
                let i = first_shared_from(incompatible@, compatible@, 0);
                let j = first_literal_from(compatible@, incompatible@[i], 0);
                &&& j < compatible@.len()
                &&& c == compatible@[j]
                &&& c.lit_eq_spec(incompatible@[i])
            },
    {
        let n: usize = incompatible.len();
        let mut i: usize = 0;
        while i < n
            invariant
                n == incompatible@.len(),
                i <= n,
                first_shared_from(incompatible@, compatible@, 0) == first_shared_from(
                    incompatible@,
                    compatible@,
                    i as int,
                ),
            decreases n - i,
        {
            match Self::find_literal(compatible, &incompatible[i]) {
                Some(j) => {
                    proof {
                        lemma_first_literal(compatible@, incompatible@[i as int], 0);
                    }
                    return Some(compatible[j].duplicate());
                },
                None => {
                    proof {
                        lemma_first_literal(compatible@, incompatible@[i as int], 0);
                    }
                },
            }
            i += 1;
        }
        None
    }
}

impl Check for Incompatible {
    type Error = IncompatibleError;

    open spec fn admits(&self, pkgchild: &PackageString, srcinfo: &SrcInfo) -> bool {
        true
    }

    /// The name of this check.
    fn name(&self) -> (r: &'static str)
        ensures
            r@ == "incompatible/compatible"@,
    {
        "incompatible/compatible"
    }

    /// Refuses a manifest that lists a distribution both as compatible
    /// and as incompatible.
    fn check(&self, pkgchild: &PackageString, srcinfo: &SrcInfo, host: &Host) -> (r: Result<
        (),
        IncompatibleError,
    >)
        ensures
            r is Err <==> first_shared_from(
                srcinfo.pkgbase.incompatible@,
                srcinfo.pkgbase.compatible@,
                0,
            ) < srcinfo.pkgbase.incompatible@.len(),
            r matches Err(e) ==> e.reports(
                srcinfo.pkgbase.incompatible@[first_shared_from(
                    srcinfo.pkgbase.incompatible@,
                    srcinfo.pkgbase.compatible@,
                    0,
                )],
            ),
    {
        match Self::duplicates(&srcinfo.pkgbase.incompatible, &srcinfo.pkgbase.compatible) {
            Some(failed) => Err(
                IncompatibleError::Duplicate {
                    clamp: LeanClamp::from_clamp(&failed),
                    first: "compatible",
                    second: "incompatible",
                },
            ),
            None => Ok(()),
        }
    }
}

} // verus!
