//! The lengths of the checksums.

use crate::checks::Check;
use crate::clamp::{ArchDistro, Host};
use crate::keys::{HashSumType, PackageString};
use crate::srcinfo::{PkgBase, SrcInfo};
use crate::text::{byte_len, str_byte_len};
use vstd::prelude::*;

verus! {

/// Checks that each checksum has the length of its algorithm's digest.
#[derive(Debug, Clone, Copy)]
pub struct Hash;

/// What is wrong with a checksum.
#[derive(Debug, PartialEq, Eq)]
pub enum HashError {
    UnexpectedLength { variant: HashSumType, got: usize, expected: usize },
}

/// The algorithm whose list is looked at in place `k`.
pub open spec fn kind_at(k: int) -> HashSumType {
    if k == 0 {
        HashSumType::Md5
    } else if k == 1 {
        HashSumType::Sha1
    } else if k == 2 {
        HashSumType::Sha224
    } else if k == 3 {
        HashSumType::Sha256
    } else if k == 4 {
        HashSumType::Sha384
    } else if k == 5 {
        HashSumType::Sha512
    } else {
        HashSumType::B2
    }
}

/// The checksums that `base` lists for `kind`.
pub open spec fn list_of(base: PkgBase, kind: HashSumType) -> Seq<(ArchDistro, String)> {
    match kind {
        HashSumType::Md5 => base.md5sums@,
        HashSumType::Sha1 => base.sha1sums@,
        HashSumType::Sha224 => base.sha224sums@,
        HashSumType::Sha256 => base.sha256sums@,
        HashSumType::Sha384 => base.sha384sums@,
        HashSumType::Sha512 => base.sha512sums@,
        HashSumType::B2 => base.b2sums@,
    }
}

/// Index of the first entry from `from` on whose length in bytes is not
/// `size`, or the number of entries where there is none.
pub open spec fn first_bad_from(list: Seq<(ArchDistro, String)>, size: nat, from: int) -> int
    decreases list.len() - from,
{
    if from < 0 || from >= list.len() {
        list.len() as int
    } else if byte_len(list[from].1@) != size {
        from
    } else {
        first_bad_from(list, size, from + 1)
    }
}

/// What `first_bad_from` finds is the first entry of another length at or
/// after `from`.
pub proof fn lemma_first_bad(list: Seq<(ArchDistro, String)>, size: nat, from: int)
    requires
        0 <= from <= list.len(),
    ensures
        from <= first_bad_from(list, size, from) <= list.len(),
        first_bad_from(list, size, from) < list.len() ==> byte_len(
            list[first_bad_from(list, size, from)].1@,
        ) != size,
        forall|j: int|
            from <= j < first_bad_from(list, size, from) ==> byte_len((#[trigger] list[j]).1@)
                == size,
    decreases list.len() - from,
{
    if from < list.len() && byte_len(list[from].1@) == size {
        lemma_first_bad(list, size, from + 1);
    }
}

/// The first algorithm from place `k` on, in the order of `kind_at`, whose
/// list holds a checksum of the wrong length, with the place of the first
/// such checksum.
pub open spec fn verdict_from(base: PkgBase, k: int) -> Option<(HashSumType, int)>
    decreases 7 - k,
{
    if k < 0 || k >= 7 {
        None
    } else {
        let kind = kind_at(k);
        let list = list_of(base, kind);
        let i = first_bad_from(list, kind.size_spec(), 0);
        if i < list.len() {
            Some((kind, i))
        } else {
            verdict_from(base, k + 1)
        }
    }
}

/// The error that the check gives for a verdict.
pub open spec fn error_for(base: PkgBase, kind: HashSumType, i: int) -> HashError {
    HashError::UnexpectedLength {
        variant: kind,
        got: byte_len(list_of(base, kind)[i].1@) as usize,
        expected: kind.size_spec() as usize,
    }
}

impl Hash {
    /// Looks for the first checksum in `list` whose length is not that of
    /// a digest of `kind`.
    pub fn scan(list: &Vec<(ArchDistro, String)>, kind: HashSumType) -> (r: Result<(), HashError>)
        ensures
            match r {
                Ok(_) => first_bad_from(list@, kind.size_spec(), 0) == list@.len(),
                Err(e) => {
                    let i = first_bad_from(list@, kind.size_spec(), 0);
                    &&& i < list@.len()
                    &&& e == (HashError::UnexpectedLength {
                        variant: kind,
                        got: byte_len(list@[i].1@) as usize,
                        expected: kind.size_spec() as usize,
                    })
                },
            },
    {
        let n: usize = list.len();
        let size: usize = kind.size();
        let mut i: usize = 0;
        while i < n
            invariant
                n == list@.len(),
                i <= n,
                size == kind.size_spec(),
                first_bad_from(list@, kind.size_spec(), 0) == first_bad_from(
                    list@,
                    kind.size_spec(),
                    i as int,
                ),
            decreases n - i,
        {
            let got: usize = str_byte_len(list[i].1.as_str());
            if got != size {
                return Err(HashError::UnexpectedLength { variant: kind, got, expected: size });
            }
            i += 1;
        }
        Ok(())
    }
}

impl Check for Hash {
    type Error = HashError;

    open spec fn admits(&self, pkgchild: &PackageString, srcinfo: &SrcInfo) -> bool {
        true
    }

    /// The name of this check.
    fn name(&self) -> (r: &'static str)
        ensures
            r@ == "hash"@,
    {
        "hash"
    }

    /// Goes through the seven lists of checksums in the order md5, sha1,
    /// sha224, sha256, sha384, sha512, b2 and reports the first checksum
    /// of the wrong length.
    fn check(&self, pkgchild: &PackageString, srcinfo: &SrcInfo, host: &Host) -> (r: Result<
        (),
        HashError,
    >)
        ensures
            match verdict_from(srcinfo.pkgbase, 0) {
                None => r is Ok,
                Some((kind, i)) => r == Err::<(), HashError>(error_for(srcinfo.pkgbase, kind, i)),
            },
    {
        let base = &srcinfo.pkgbase;
        proof {
            reveal_with_fuel(verdict_from, 8);
        }
        match Self::scan(&base.md5sums, HashSumType::Md5) {
            Err(e) => {
                return Err(e);
            },
            Ok(_) => {},
        }
        match Self::scan(&base.sha1sums, HashSumType::Sha1) {
            Err(e) => {
                return Err(e);
            },
            Ok(_) => {},
        }
        match Self::scan(&base.sha224sums, HashSumType::Sha224) {
            Err(e) => {
                return Err(e);
            },
            Ok(_) => {},
        }
        match Self::scan(&base.sha256sums, HashSumType::Sha256) {
            Err(e) => {
                return Err(e);
            },
            Ok(_) => {},
        }
        match Self::scan(&base.sha384sums, HashSumType::Sha384) {
            Err(e) => {
                return Err(e);
            },
            Ok(_) => {},
        }
        match Self::scan(&base.sha512sums, HashSumType::Sha512) {
            Err(e) => {
                return Err(e);
            },
            Ok(_) => {},
        }
        Self::scan(&base.b2sums, HashSumType::B2)
    }
}

} // verus!
