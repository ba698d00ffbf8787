//! The version of a package, part by part.

use crate::report::Check;
use crate::status::{CheckStatus, MicroCheck, PassOrFail};
use crate::text::{all_version_chars, char_is_digit, is_digit, str_all_version_chars};
use crate::value::BashValue;
use vstd::prelude::*;
use vstd::string::*;

verus! {

/// The parts of the check on a package's version.
#[derive(Debug, Clone, Copy)]
pub struct Pkgver;

/// What a part of the check can find wrong with a version.
#[derive(Debug, Clone, Copy, PartialEq, Eq, Structural)]
pub enum PkgverError {
    InvalidChars,
    NoStartingDigit,
}

/// `s` begins with an ASCII digit.
pub open spec fn digit_first(s: Seq<char>) -> bool {
    s.len() > 0 && is_digit(s[0])
}

/// How the part on the first character ends.
pub open spec fn digit_status(s: Seq<char>) -> PassOrFail<PkgverError> {
    if digit_first(s) {
        PassOrFail::Pass
    } else {
        PassOrFail::Fail(PkgverError::NoStartingDigit)
    }
}

/// How the part on the characters ends.
pub open spec fn chars_status(s: Seq<char>) -> PassOrFail<PkgverError> {
    if all_version_chars(s) {
        PassOrFail::Pass
    } else {
        PassOrFail::Fail(PkgverError::InvalidChars)
    }
}

/// What is wrong with the version `s`, if anything: first that it does not
/// begin with a digit, then that it holds a character that no version may
/// hold.
pub open spec fn first_fault(s: Seq<char>) -> Option<PkgverError> {
    if !digit_first(s) {
        Some(PkgverError::NoStartingDigit)
    } else if !all_version_chars(s) {
        Some(PkgverError::InvalidChars)
    } else {
        None
    }
}

impl Pkgver {
    /// Whether the version begins with an ASCII digit.
    pub fn starts_with_digit(str: &str) -> (r: bool)
        ensures
            r == digit_first(str@),
    {
        if str.unicode_len() == 0 {
            return false;
        }
        char_is_digit(str.get_char(0))
    }

    /// Whether the version is made of letters, digits, `-`, `+`, `.` and
    /// `~` alone.
    pub fn valid_chars(str: &str) -> (r: bool)
        ensures
            r == all_version_chars(str@),
    {
        str_all_version_chars(str)
    }

    /// Stops at the first thing that is wrong with the version.
    pub fn verify(pkgver: &str) -> (r: Result<(), PkgverError>)
        ensures
            match first_fault(pkgver@) {
                None => r is Ok,
                Some(e) => r == Err::<(), PkgverError>(e),
            },
    {
        if !Self::starts_with_digit(pkgver) {
            Err(PkgverError::NoStartingDigit)
        } else if !Self::valid_chars(pkgver) {
            Err(PkgverError::InvalidChars)
        } else {
            Ok(())
        }
    }
}

impl Check for Pkgver {
    type Err = PkgverError;

    /// Tries two parts on the decayed value: that the version begins
    /// with a digit, and that it holds no character that it may not.
    fn check(&self, input: BashValue) -> (r: CheckStatus<PkgverError>)
        ensures
            r.passes@.len() == 2,
            r.passes@[0].name@ == "pkgver starts with digit"@,
            r.passes@[0].status == digit_status(input.decay_spec()),
            r.passes@[1].name@ == "pkgver has only valid chars"@,
            r.passes@[1].status == chars_status(input.decay_spec()),
            r.passes@[0].desc matches Some(d) && d@ == "`pkgver` does not start with a digit"@,
            r.passes@[1].desc matches Some(d) && d@ == "`pkgver` contains invalid characters"@,
            forall|i: int|
                0 <= i < 2 ==> ((#[trigger] r.passes@[i]).help_link matches Some(l) && l@ == "url"@),
    {
        let mut checks = CheckStatus::new();
        let input = input.decay();
        let text = input.as_str();
        checks.push(
            MicroCheck::new(
                "pkgver starts with digit",
                Some("`pkgver` does not start with a digit"),
                Some("url"),
                if Self::starts_with_digit(text) {
                    PassOrFail::Pass
                } else {
                    PassOrFail::Fail(PkgverError::NoStartingDigit)
                },
            ),
        );
        checks.push(
            MicroCheck::new(
                "pkgver has only valid chars",
                Some("`pkgver` contains invalid characters"),
                Some("url"),
                if Self::valid_chars(text) {
                    PassOrFail::Pass
                } else {
                    PassOrFail::Fail(PkgverError::InvalidChars)
                },
            ),
        );
        checks
    }
}

} // verus!
