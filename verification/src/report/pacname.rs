//! The name of a package, part by part.

use crate::report::Check;
use crate::status::{CheckStatus, MicroCheck, PassOrFail};
use crate::text::{char_is_alphanumeric, char_is_uppercase, unicode_alphanumeric, unicode_uppercase};
use crate::value::BashValue;
use vstd::prelude::*;
use vstd::string::*;

verus! {

/// The parts of the check on a package's name.
#[derive(Debug, Clone, Copy)]
pub struct Pacname;

/// What a part of the check can find wrong with a name.
#[derive(Debug, Clone, Copy, PartialEq, Eq, Structural)]
pub enum PacnameError {
    Empty,
    MinimumSizeViolation(usize),
    CaseViolation,
}

/// Some character of `s` is an uppercase letter of any script.
pub open spec fn holds_uppercase(s: Seq<char>) -> bool {
    exists|i: int| 0 <= i < s.len() && unicode_uppercase(#[trigger] s[i])
}

/// Every character of `s` is a lowercase letter, a digit or one of `-`,
/// `+`, `.`.
pub open spec fn only_name_chars(s: Seq<char>) -> bool {
    forall|i: int|
        0 <= i < s.len() ==> {
            let c = #[trigger] s[i];
            ('a' <= c && c <= 'z') || ('0' <= c && c <= '9') || c == '-' || c == '+' || c == '.'
        }
}

/// How the part on the name's presence ends.
pub open spec fn presence_status(s: Seq<char>) -> PassOrFail<PacnameError> {
    if s.len() > 0 {
        PassOrFail::Pass
    } else {
        PassOrFail::Fail(PacnameError::Empty)
    }
}

/// How the part on the name's length ends.
pub open spec fn size_status(s: Seq<char>) -> PassOrFail<PacnameError> {
    if s.len() >= 2 {
        PassOrFail::Pass
    } else {
        PassOrFail::Fail(PacnameError::MinimumSizeViolation(s.len() as usize))
    }
}

/// How the part on the name's letter case ends.
pub open spec fn case_status(s: Seq<char>) -> PassOrFail<PacnameError> {
    if !holds_uppercase(s) {
        PassOrFail::Pass
    } else {
        PassOrFail::Fail(PacnameError::CaseViolation)
    }
}

impl Pacname {
    /// Whether the name is not empty.
    pub fn is_present(str: &str) -> (r: bool)
        ensures
            r == (str@.len() > 0),
    {
        str.unicode_len() != 0
    }

    /// Whether the name has at least two characters, and how many it
    /// has.
    pub fn two_minimum_chars(str: &str) -> (r: (bool, usize))
        ensures
            r.0 == (str@.len() >= 2),
            r.1 == str@.len(),
    {
        let len: usize = str.unicode_len();
        if len < 2 {
            (false, len)
        } else {
            (true, len)
        }
    }

    /// Whether the name begins with a letter or a number.
    pub fn start_alphanum(str: &str) -> (r: bool)
        ensures
            r == (str@.len() > 0 && unicode_alphanumeric(str@[0])),
    {
        if str.unicode_len() == 0 {
            return false;
        }
        char_is_alphanumeric(str.get_char(0))
    }

    /// Whether the name holds an uppercase letter.
    pub fn is_uppercase(str: &str) -> (r: bool)
        ensures
            r == holds_uppercase(str@),
    {
        let n: usize = str.unicode_len();
        let mut i: usize = 0;
        while i < n
            invariant
                n == str@.len(),
                i <= n,
                forall|j: int| 0 <= j < i ==> !unicode_uppercase(#[trigger] str@[j]),
            decreases n - i,
        {
            if char_is_uppercase(str.get_char(i)) {
                return true;
            }
            i += 1;
        }
        false
    }

    /// Whether the name is made of lowercase letters, digits, `-`, `+`
    /// and `.` alone.
    pub fn valid_chars(str: &str) -> (r: bool)
        ensures
            r == only_name_chars(str@),
    {
        let n: usize = str.unicode_len();
        let mut i: usize = 0;
        while i < n
            invariant
                n == str@.len(),
                i <= n,
                forall|j: int|
                    0 <= j < i ==> {
                        let c = #[trigger] str@[j];
                        ('a' <= c && c <= 'z') || ('0' <= c && c <= '9') || c == '-' || c == '+'
                            || c == '.'
                    },
            decreases n - i,
        {
            let c = str.get_char(i);
            if !(('a' <= c && c <= 'z') || ('0' <= c && c <= '9') || c == '-' || c == '+' || c
                == '.') {
                return false;
            }
            i += 1;
        }
        true
    }
}

impl Check for Pacname {
    type Err = PacnameError;

    /// Tries three parts on the decayed value: that the name is there,
    /// that it has two characters, that it holds no uppercase letter.
    fn check(&self, input: BashValue) -> (r: CheckStatus<PacnameError>)
        ensures
            r.passes@.len() == 3,
            r.passes@[0].name@ == "pacname exists"@,
            r.passes@[0].status == presence_status(input.decay_spec()),
            r.passes@[1].name@ == "pacname size"@,
            r.passes@[1].status == size_status(input.decay_spec()),
            r.passes@[2].name@ == "pacname uppercase"@,
            r.passes@[2].status == case_status(input.decay_spec()),
            r.passes@[0].desc matches Some(d) && d@ == "Package does not contain 'pacname'"@,
            r.passes@[1].desc matches Some(d) && d@
                == "'pacname' must be at least two characters long"@,
            r.passes@[2].desc matches Some(d) && d@
                == "'pacname' must not contain uppercase letters"@,
            forall|i: int|
                0 <= i < 3 ==> ((#[trigger] r.passes@[i]).help_link matches Some(l) && l@ == "url"@),
    {
        let mut checks = CheckStatus::new();
        let input = input.decay();
        let text = input.as_str();
        checks.push(
            MicroCheck::new(
                "pacname exists",
                Some("Package does not contain 'pacname'"),
                Some("url"),
                if Self::is_present(text) {
                    PassOrFail::Pass
                } else {
                    PassOrFail::Fail(PacnameError::Empty)
                },
            ),
        );
        let (has_min_size, size) = Self::two_minimum_chars(text);
        checks.push(
            MicroCheck::new(
                "pacname size",
                Some("'pacname' must be at least two characters long"),
                Some("url"),
                if has_min_size {
                    PassOrFail::Pass
                } else {
                    PassOrFail::Fail(PacnameError::MinimumSizeViolation(size))
                },
            ),
        );
        checks.push(
            MicroCheck::new(
                "pacname uppercase",
                Some("'pacname' must not contain uppercase letters"),
                Some("url"),
                if !Self::is_uppercase(text) {
                    PassOrFail::Pass
                } else {
                    PassOrFail::Fail(PacnameError::CaseViolation)
                },
            ),
        );
        checks
    }
}

} // verus!
