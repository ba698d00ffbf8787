//! The list of packages that a package masks.

use crate::checks::Check;
use crate::clamp::Host;
use crate::keys::PackageString;
use crate::srcinfo::SrcInfo;
use vstd::prelude::*;

verus! {

/// Checks that no entry of `mask` is empty.
#[derive(Debug, Clone, Copy)]
pub struct Mask;

/// What is wrong with a `mask` field.
#[derive(Debug, PartialEq, Eq)]
pub enum MaskError {
    Empty { key: &'static str, index: usize },
}

impl MaskError {
    /// The error says that entry `index` of `mask` is empty.
    pub open spec fn reports(self, index: int) -> bool {
        match self {
            MaskError::Empty { key, index: i } => key@ == "mask"@ && i == index,
        }
    }
}

/// Index of the first empty entry of `mask` from `from` on, or the length
/// of `mask` where there is none.
pub open spec fn first_empty_from(mask: Seq<String>, from: int) -> int
    decreases mask.len() - from,
{
    if from < 0 || from >= mask.len() {
        mask.len() as int
    } else if mask[from]@.len() == 0 {
        from
    } else {
        first_empty_from(mask, from + 1)
    }
}

/// What `first_empty_from` finds is the first empty entry at or after
/// `from`.
pub proof fn lemma_first_empty(mask: Seq<String>, from: int)
    requires
        0 <= from <= mask.len(),
    ensures
        from <= first_empty_from(mask, from) <= mask.len(),
        first_empty_from(mask, from) < mask.len() ==> mask[first_empty_from(mask, from)]@.len()
            == 0,
        forall|j: int| from <= j < first_empty_from(mask, from) ==> (#[trigger] mask[j])@.len() > 0,
    decreases mask.len() - from,
{
    if from < mask.len() && mask[from]@.len() != 0 {
        lemma_first_empty(mask, from + 1);
    }
}

impl Check for Mask {
    type Error = MaskError;

    open spec fn admits(&self, pkgchild: &PackageString, srcinfo: &SrcInfo) -> bool {
        true
    }

    /// The name of this check.
    fn name(&self) -> (r: &'static str)
        ensures
            r@ == "mask"@,
    {
        "mask"
    }

    /// Reports the first empty entry of `mask`.
    fn check(&self, pkgchild: &PackageString, srcinfo: &SrcInfo, host: &Host) -> (r: Result<
        (),
        MaskError,
    >)
        ensures
            r is Err <==> first_empty_from(srcinfo.pkgbase.mask@, 0) < srcinfo.pkgbase.mask@.len(),
            r matches Err(e) ==> e.reports(first_empty_from(srcinfo.pkgbase.mask@, 0)),
    {
        let mask = &srcinfo.pkgbase.mask;
        let n: usize = mask.len();
        let mut index: usize = 0;
        while index < n
            invariant
                n == mask@.len(),
                mask@ == srcinfo.pkgbase.mask@,
                index <= n,
                first_empty_from(mask@, 0) == first_empty_from(mask@, index as int),
            decreases n - index,
        {
            if mask[index].as_str().unicode_len() == 0 {
                return Err(MaskError::Empty { key: "mask", index });
            }
            index += 1;
        }
        Ok(())
    }
}

} // verus!
