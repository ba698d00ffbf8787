//! The four rules that the name of a package, and each name it gives
//! itself, must keep.

use crate::clamp::{ArchDistro, Host};
use crate::text::{
    all_name_chars, byte_len, has_lead_punct, has_upper, str_all_name_chars, str_byte_len,
    str_has_lead_punct, str_has_upper,
};
use vstd::prelude::*;

verus! {

/// One rule on a name. The rules are tried in the order they are declared
/// in.
#[derive(Debug, Clone, Copy, PartialEq, Eq, Structural)]
pub enum NameRule {
    /// At least two bytes long.
    TwoChars,
    /// Does not begin with `.`, `-` or `+`.
    Alphanumeric,
    /// Holds no ASCII uppercase letter.
    Uppercase,
    /// Holds only lowercase letters, digits, `-` and `.`.
    Alnum,
}

impl NameRule {
    /// `s` breaks this rule.
    pub open spec fn broken_by(self, s: Seq<char>) -> bool {
        match self {
            NameRule::TwoChars => byte_len(s) < 2,
            NameRule::Alphanumeric => has_lead_punct(s),
            NameRule::Uppercase => has_upper(s),
            NameRule::Alnum => !all_name_chars(s),
        }
    }

    /// Whether `s` breaks this rule.
    pub fn is_broken_by(&self, s: &str) -> (r: bool)
        ensures
            r == self.broken_by(s@),
    {
        match self {
            NameRule::TwoChars => str_byte_len(s) < 2,
            NameRule::Alphanumeric => str_has_lead_punct(s),
            NameRule::Uppercase => str_has_upper(s),
            NameRule::Alnum => !str_all_name_chars(s),
        }
    }
}

/// The first rule, in order, that `s` breaks.
pub open spec fn first_broken(s: Seq<char>) -> Option<NameRule> {
    if NameRule::TwoChars.broken_by(s) {
        Some(NameRule::TwoChars)
    } else if NameRule::Alphanumeric.broken_by(s) {
        Some(NameRule::Alphanumeric)
    } else if NameRule::Uppercase.broken_by(s) {
        Some(NameRule::Uppercase)
    } else if NameRule::Alnum.broken_by(s) {
        Some(NameRule::Alnum)
    } else {
        None
    }
}

/// The first rule, in order, that `s` breaks.
pub fn find_broken(s: &str) -> (r: Option<NameRule>)
    ensures
        r == first_broken(s@),
{
    if NameRule::TwoChars.is_broken_by(s) {
        Some(NameRule::TwoChars)
    } else if NameRule::Alphanumeric.is_broken_by(s) {
        Some(NameRule::Alphanumeric)
    } else if NameRule::Uppercase.is_broken_by(s) {
        Some(NameRule::Uppercase)
    } else if NameRule::Alnum.is_broken_by(s) {
        Some(NameRule::Alnum)
    } else {
        None
    }
}

/// Index of the first entry from `from` on that holds on `host` and breaks
/// `rule`, or the number of entries where there is none.
pub open spec fn first_hit_from(
    entries: Seq<(ArchDistro, String)>,
    host: Host,
    rule: NameRule,
    from: int,
) -> int
    decreases entries.len() - from,
{
    if from < 0 || from >= entries.len() {
        entries.len() as int
    } else if entries[from].0.applies_spec(host) && rule.broken_by(entries[from].1@) {
        from
    } else {
        first_hit_from(entries, host, rule, from + 1)
    }
}

/// What `first_hit_from` finds is the first such entry at or after `from`.
pub proof fn lemma_first_hit(
    entries: Seq<(ArchDistro, String)>,
    host: Host,
    rule: NameRule,
    from: int,
)
    requires
        0 <= from <= entries.len(),
    ensures
        from <= first_hit_from(entries, host, rule, from) <= entries.len(),
        first_hit_from(entries, host, rule, from) < entries.len() ==> {
            let k = first_hit_from(entries, host, rule, from);
            entries[k].0.applies_spec(host) && rule.broken_by(entries[k].1@)
        },
        forall|j: int|
            from <= j < first_hit_from(entries, host, rule, from) ==> !((
            #[trigger] entries[j]).0.applies_spec(host) && rule.broken_by(entries[j].1@)),
    decreases entries.len() - from,
{
    if from < entries.len() && !(entries[from].0.applies_spec(host) && rule.broken_by(
        entries[from].1@,
    )) {
        lemma_first_hit(entries, host, rule, from + 1);
    }
}

/// Position of the first entry that holds on `host` and breaks `rule`.
pub fn find_hit(entries: &Vec<(ArchDistro, String)>, host: &Host, rule: NameRule) -> (r: Option<
    usize,
>)
    ensures
        r is Some <==> first_hit_from(entries@, *host, rule, 0) < entries@.len(),
        r matches Some(i) ==> i == first_hit_from(entries@, *host, rule, 0) && i < entries@.len(),
{
    let n: usize = entries.len();
    let mut i: usize = 0;
    while i < n
        invariant
            n == entries@.len(),
            i <= n,
            first_hit_from(entries@, *host, rule, 0) == first_hit_from(
                entries@,
                *host,
                rule,
                i as int,
            ),
        decreases n - i,
    {
        if entries[i].0.applies(host) && rule.is_broken_by(entries[i].1.as_str()) {
            return Some(i);
        }
        i += 1;
    }
    None
}

} // verus!
