//! Checks that try every one of their parts and report on each, in place
//! of stopping at the first that fails.

use crate::status::CheckStatus;
use crate::value::BashValue;
use vstd::prelude::*;

pub mod pacname;
pub mod pkgver;

verus! {

/// A check with several parts on the value of one variable.
pub trait Check {
    /// What a part of the check can find wrong.
    type Err;

    /// Tries every part on `input` and tells how each of them ended.
    fn check(&self, input: BashValue) -> (r: CheckStatus<Self::Err>);
}

} // verus!
