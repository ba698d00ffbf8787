//! What a shell variable is bound to: one string, an indexed array or an
//! associative array.

use crate::text::{lex_lt, str_lt};
use std::ops::RangeInclusive;
use vstd::prelude::*;
use vstd::std_specs::cmp::PartialEqSpecImpl;
use vstd::std_specs::convert::FromSpecImpl;

verus! {

/// A string together with the place in the manifest that it was read
/// from. Two of them are equal where their strings are.
#[derive(Debug)]
pub struct StringSpan {
    pub string: String,
    pub span: RangeInclusive<usize>,
}

impl View for StringSpan {
    type V = Seq<char>;

    open spec fn view(&self) -> Seq<char> {
        self.string@
    }
}

/// Calls `<RangeInclusive<usize> as Clone>::clone`, which the standard
/// library derives: the copy has the bounds of the range and its mark of
/// exhaustion.
#[verifier::external_body]
fn copy_range(range: &RangeInclusive<usize>) -> (r: RangeInclusive<usize>)
    ensures
        r == *range,
{
    range.clone()
}

impl PartialEq for StringSpan {
    fn eq(&self, other: &Self) -> (r: bool) {
        self.string == other.string
    }
}

impl Eq for StringSpan {

}

impl PartialEqSpecImpl for StringSpan {
    open spec fn obeys_eq_spec() -> bool {
        true
    }

    open spec fn eq_spec(&self, other: &Self) -> bool {
        self.string@ == other.string@
    }
}

impl Default for StringSpan {
    fn default() -> (r: Self)
        ensures
            r@ == Seq::<char>::empty(),
            r.span@.start == 0,
            r.span@.end == 0,
            !r.span@.exhausted,
    {
        StringSpan { string: String::new(), span: RangeInclusive::new(0, 0) }
    }
}

impl From<String> for StringSpan {
    fn from(value: String) -> (r: Self)
        ensures
            r.string == value,
            r.span@.start == 0,
            r.span@.end == crate::text::byte_len(value@),
            !r.span@.exhausted,
    {
        let end: usize = value.as_str().as_bytes().len();
        StringSpan { span: RangeInclusive::new(0, end), string: value }
    }
}

impl FromSpecImpl<String> for StringSpan {
    open spec fn obeys_from_spec() -> bool {
        false
    }

    open spec fn from_spec(value: String) -> Self {
        StringSpan { string: value, span: arbitrary() }
    }
}

impl StringSpan {
    /// A string and the place it was read from.
    pub fn new(string: String, span: RangeInclusive<usize>) -> (r: Self)
        ensures
            r.string == string,
            r.span == span,
    {
        StringSpan { string, span }
    }

    /// The place the string was read from.
    pub fn span(&self) -> (r: &RangeInclusive<usize>)
        ensures
            *r == self.span,
    {
        &self.span
    }

    /// The string.
    pub fn as_str(&self) -> (r: &str)
        ensures
            r@ == self@,
    {
        self.string.as_str()
    }

    /// A copy: the same string, read from the same place.
    pub fn duplicate(&self) -> (r: StringSpan)
        ensures
            r == *self,
    {
        StringSpan { string: self.string.clone(), span: copy_range(&self.span) }
    }
}

/// What a shell variable is bound to. An array is well formed where it
/// holds its entries in ascending order of their keys, as the interpreter
/// hands them out; `decay` takes the lowest key of any array.
#[derive(Debug)]
pub enum BashValue {
    /// One string: `foo="bar"`.
    String(StringSpan),
    /// An associative array: `foo=([a]="here is a" [b]="here is b")`.
    AssociatedArray(Vec<(StringSpan, StringSpan)>),
    /// An indexed array: `foo=(1 2 3)`.
    IndexedArray(Vec<(u64, StringSpan)>),
}

/// Index of the first entry with the lowest key among the first `n`
/// entries.
pub open spec fn lowest_index(entries: Seq<(u64, StringSpan)>, n: int) -> int
    decreases n,
{
    if n <= 1 {
        0
    } else {
        let best = lowest_index(entries, n - 1);
        if entries[n - 1].0 < entries[best].0 {
            n - 1
        } else {
            best
        }
    }
}

/// Index of the first entry with the smallest key, in the order of a
/// dictionary, among the first `n` entries.
pub open spec fn lowest_key(entries: Seq<(StringSpan, StringSpan)>, n: int) -> int
    decreases n,
{
    if n <= 1 {
        0
    } else {
        let best = lowest_key(entries, n - 1);
        if lex_lt(entries[n - 1].0@, entries[best].0@) {
            n - 1
        } else {
            best
        }
    }
}

/// The keys of an indexed array ascend, so that none occurs twice.
pub open spec fn indexed_sorted(entries: Seq<(u64, StringSpan)>) -> bool {
    forall|i: int, j: int|
        0 <= i < j < entries.len() ==> (#[trigger] entries[i]).0 < (#[trigger] entries[j]).0
}

/// The keys of an associative array ascend in the order of a dictionary.
pub open spec fn keyed_sorted(entries: Seq<(StringSpan, StringSpan)>) -> bool {
    forall|i: int, j: int|
        0 <= i < j < entries.len() ==> lex_lt(
            (#[trigger] entries[i]).0@,
            (#[trigger] entries[j]).0@,
        )
}

/// The entry that `lowest_index` picks lies among the first `n`, no entry
/// among them has a lower key, and none before it has the same key.
pub proof fn lemma_lowest_index(entries: Seq<(u64, StringSpan)>, n: int)
    requires
        1 <= n <= entries.len(),
    ensures
        0 <= lowest_index(entries, n) < n,
        forall|j: int|
            0 <= j < n ==> entries[lowest_index(entries, n)].0 <= (#[trigger] entries[j]).0,
        forall|j: int|
            0 <= j < lowest_index(entries, n) ==> entries[lowest_index(entries, n)].0 < (
            #[trigger] entries[j]).0,
    decreases n,
{
    if n > 1 {
        lemma_lowest_index(entries, n - 1);
    }
}

/// The entry that `lowest_key` picks lies among the first `n`, and no
/// entry among them has a key that comes before its key.
pub proof fn lemma_lowest_key(entries: Seq<(StringSpan, StringSpan)>, n: int)
    requires
        1 <= n <= entries.len(),
    ensures
        0 <= lowest_key(entries, n) < n,
        forall|j: int|
            0 <= j < n ==> !lex_lt((#[trigger] entries[j]).0@, entries[lowest_key(entries, n)].0@),
    decreases n,
{
    if n > 1 {
        lemma_lowest_key(entries, n - 1);
        let before = lowest_key(entries, n - 1);
        let now = lowest_key(entries, n);
        if now == n - 1 {
            assert forall|j: int| 0 <= j < n implies !lex_lt(
                (#[trigger] entries[j]).0@,
                entries[now].0@,
            ) by {
                if j < n - 1 {
                    if lex_lt(entries[j].0@, entries[now].0@) {
                        crate::text::lemma_lex_lt_transitive(
                            entries[j].0@,
                            entries[now].0@,
                            entries[before].0@,
                        );
                    }
                } else {
                    crate::text::lemma_lex_lt_irreflexive(entries[now].0@);
                }
            }
        }
    } else {
        crate::text::lemma_lex_lt_irreflexive(entries[0].0@);
    }
}

/// In an array whose keys ascend the first entry has the lowest key.
pub proof fn lemma_sorted_lowest_is_first(entries: Seq<(u64, StringSpan)>, n: int)
    requires
        1 <= n <= entries.len(),
        indexed_sorted(entries),
    ensures
        lowest_index(entries, n) == 0,
    decreases n,
{
    if n > 1 {
        lemma_sorted_lowest_is_first(entries, n - 1);
    }
}

/// In an associative array whose keys ascend the first entry has the
/// smallest key.
pub proof fn lemma_sorted_lowest_key_is_first(entries: Seq<(StringSpan, StringSpan)>, n: int)
    requires
        1 <= n <= entries.len(),
        keyed_sorted(entries),
    ensures
        lowest_key(entries, n) == 0,
    decreases n,
{
    if n > 1 {
        lemma_sorted_lowest_key_is_first(entries, n - 1);
        assert(lex_lt(entries[0].0@, entries[n - 1].0@));
        if lex_lt(entries[n - 1].0@, entries[0].0@) {
            crate::text::lemma_lex_lt_transitive(
                entries[0].0@,
                entries[n - 1].0@,
                entries[0].0@,
            );
            crate::text::lemma_lex_lt_irreflexive(entries[0].0@);
        }
    }
}

impl BashValue {
    /// The arrays hold their entries in ascending order of their keys.
    pub open spec fn wf(self) -> bool {
        match self {
            BashValue::String(_) => true,
            BashValue::AssociatedArray(entries) => keyed_sorted(entries@),
            BashValue::IndexedArray(entries) => indexed_sorted(entries@),
        }
    }

    /// The strings that the value holds, in the order of their keys as
    /// far as the entries are stored in that order.
    pub open spec fn values_spec(self) -> Seq<Seq<char>> {
        match self {
            BashValue::String(s) => seq![s@],
            BashValue::AssociatedArray(entries) => Seq::new(entries@.len(), |i: int| entries@[i].1@),
            BashValue::IndexedArray(entries) => Seq::new(entries@.len(), |i: int| entries@[i].1@),
        }
    }

    /// What the value is where one string is asked for: the string itself,
    /// of an array the entry with the lowest key, of an empty array the
    /// empty string.
    pub open spec fn decay_spec(self) -> Seq<char> {
        match self {
            BashValue::String(s) => s@,
            BashValue::AssociatedArray(entries) => if entries@.len() == 0 {
                Seq::<char>::empty()
            } else {
                entries@[lowest_key(entries@, entries@.len() as int)].1@
            },
            BashValue::IndexedArray(entries) => if entries@.len() == 0 {
                Seq::<char>::empty()
            } else {
                entries@[lowest_index(entries@, entries@.len() as int)].1@
            },
        }
    }

    /// Whether the keys of `entries` ascend.
    fn indexed_in_order(entries: &Vec<(u64, StringSpan)>) -> (r: bool)
        ensures
            r == indexed_sorted(entries@),
    {
        let n: usize = entries.len();
        let mut i: usize = 1;
        while i < n
            invariant
                n == entries@.len(),
                1 <= i,
                forall|a: int, b: int|
                    0 <= a < b < i && b < n ==> (#[trigger] entries@[a]).0 < (
                    #[trigger] entries@[b]).0,
            decreases n - i,
        {
            if !(entries[i - 1].0 < entries[i].0) {
                return false;
            }
            assert forall|a: int, b: int| 0 <= a < b < i + 1 && b < n implies (
            #[trigger] entries@[a]).0 < (#[trigger] entries@[b]).0 by {
                if b == i && a < i - 1 {
                    assert(entries@[a].0 < entries@[i - 1].0);
                }
            }
            i += 1;
        }
        true
    }

    /// Whether the keys of `entries` ascend in the order of a dictionary.
    fn keyed_in_order(entries: &Vec<(StringSpan, StringSpan)>) -> (r: bool)
        ensures
            r == keyed_sorted(entries@),
    {
        let n: usize = entries.len();
        let mut i: usize = 1;
        while i < n
            invariant
                n == entries@.len(),
                1 <= i,
                forall|a: int, b: int|
                    0 <= a < b < i && b < n ==> lex_lt(
                        (#[trigger] entries@[a]).0@,
                        (#[trigger] entries@[b]).0@,
                    ),
            decreases n - i,
        {
            if !str_lt(entries[i - 1].0.as_str(), entries[i].0.as_str()) {
                return false;
            }
            assert forall|a: int, b: int| 0 <= a < b < i + 1 && b < n implies lex_lt(
                (#[trigger] entries@[a]).0@,
                (#[trigger] entries@[b]).0@,
            ) by {
                if b == i && a < i - 1 {
                    assert(lex_lt(entries@[a].0@, entries@[i - 1].0@));
                    crate::text::lemma_lex_lt_transitive(
                        entries@[a].0@,
                        entries@[i - 1].0@,
                        entries@[i as int].0@,
                    );
                }
            }
            i += 1;
        }
        true
    }

    /// An indexed array of `entries`, if their keys ascend.
    pub fn indexed(entries: Vec<(u64, StringSpan)>) -> (r: Option<BashValue>)
        ensures
            r is Some <==> indexed_sorted(entries@),
            r matches Some(v) ==> v == BashValue::IndexedArray(entries) && v.wf(),
    {
        if Self::indexed_in_order(&entries) {
            Some(BashValue::IndexedArray(entries))
        } else {
            None
        }
    }

    /// An associative array of `entries`, if their keys ascend in the
    /// order of a dictionary.
    pub fn keyed(entries: Vec<(StringSpan, StringSpan)>) -> (r: Option<BashValue>)
        ensures
            r is Some <==> keyed_sorted(entries@),
            r matches Some(v) ==> v == BashValue::AssociatedArray(entries) && v.wf(),
    {
        if Self::keyed_in_order(&entries) {
            Some(BashValue::AssociatedArray(entries))
        } else {
            None
        }
    }

    /// Whether the arrays hold their entries in ascending order of their
    /// keys.
    pub fn is_wf(&self) -> (r: bool)
        ensures
            r == self.wf(),
    {
        match self {
            BashValue::String(_) => true,
            BashValue::AssociatedArray(entries) => Self::keyed_in_order(entries),
            BashValue::IndexedArray(entries) => Self::indexed_in_order(entries),
        }
    }

    /// Position of the first entry with the lowest key.
    fn lowest_index_of(entries: &Vec<(u64, StringSpan)>) -> (r: usize)
        requires
            entries@.len() > 0,
        ensures
            r == lowest_index(entries@, entries@.len() as int),
            r < entries@.len(),
    {
        let n: usize = entries.len();
        let mut best: usize = 0;
        let mut i: usize = 1;
        while i < n
            invariant
                n == entries@.len(),
                1 <= i <= n,
                best < i,
                best == lowest_index(entries@, i as int),
            decreases n - i,
        {
            if entries[i].0 < entries[best].0 {
                best = i;
            }
            i += 1;
        }
        best
    }

    /// Position of the first entry with the smallest key.
    fn lowest_key_of(entries: &Vec<(StringSpan, StringSpan)>) -> (r: usize)
        requires
            entries@.len() > 0,
        ensures
            r == lowest_key(entries@, entries@.len() as int),
            r < entries@.len(),
    {
        let n: usize = entries.len();
        let mut best: usize = 0;
        let mut i: usize = 1;
        while i < n
            invariant
                n == entries@.len(),
                1 <= i <= n,
                best < i,
                best == lowest_key(entries@, i as int),
            decreases n - i,
        {
            if str_lt(entries[i].0.as_str(), entries[best].0.as_str()) {
                best = i;
            }
            i += 1;
        }
        best
    }

    /// Decays an array into the entry with its lowest key, as a shell
    /// does where it expands an array's bare name.
    #[must_use]
    pub fn decay(self) -> (r: StringSpan)
        ensures
            r@ == self.decay_spec(),
            match self {
                BashValue::String(s) => r == s,
                BashValue::AssociatedArray(entries) => if entries@.len() == 0 {
                    r.span@.start == 0 && r.span@.end == 0 && !r.span@.exhausted
                } else {
                    r == entries@[lowest_key(entries@, entries@.len() as int)].1
                },
                BashValue::IndexedArray(entries) => if entries@.len() == 0 {
                    r.span@.start == 0 && r.span@.end == 0 && !r.span@.exhausted
                } else {
                    r == entries@[lowest_index(entries@, entries@.len() as int)].1
                },
            },
    {
        match self {
            BashValue::String(s) => s,
            BashValue::AssociatedArray(entries) => {
                let mut entries = entries;
                if entries.len() == 0 {
                    StringSpan::default()
                } else {
                    let first = Self::lowest_key_of(&entries);
                    let entry = entries.remove(first);
                    entry.1
                }
            },
            BashValue::IndexedArray(entries) => {
                let mut entries = entries;
                if entries.len() == 0 {
                    StringSpan::default()
                } else {
                    let lowest = Self::lowest_index_of(&entries);
                    let entry = entries.remove(lowest);
                    entry.1
                }
            },
        }
    }

    /// The string that `decay` would give, without giving the value up.
    pub fn decayed(&self) -> (r: String)
        ensures
            r@ == self.decay_spec(),
    {
        match self {
            BashValue::String(s) => s.string.clone(),
            BashValue::AssociatedArray(entries) => {
                if entries.len() == 0 {
                    String::new()
                } else {
                    let first = Self::lowest_key_of(entries);
                    entries[first].1.string.clone()
                }
            },
            BashValue::IndexedArray(entries) => {
                if entries.len() == 0 {
                    String::new()
                } else {
                    let lowest = Self::lowest_index_of(entries);
                    entries[lowest].1.string.clone()
                }
            },
        }
    }

    /// The strings that the value holds, in the order they are stored in.
    pub fn values(&self) -> (r: Vec<String>)
        ensures
            r@.len() == self.values_spec().len(),
            forall|i: int| 0 <= i < r@.len() ==> (#[trigger] r@[i])@ == self.values_spec()[i],
    {
        let mut out: Vec<String> = Vec::new();
        match self {
            BashValue::String(s) => {
                out.push(s.string.clone());
            },
            BashValue::AssociatedArray(entries) => {
                let n: usize = entries.len();
                let mut i: usize = 0;
                while i < n
                    invariant
                        n == entries@.len(),
                        i <= n,
                        out@.len() == i,
                        forall|j: int| 0 <= j < i ==> (#[trigger] out@[j])@ == entries@[j].1@,
                    decreases n - i,
                {
                    out.push(entries[i].1.string.clone());
                    i += 1;
                }
            },
            BashValue::IndexedArray(entries) => {
                let n: usize = entries.len();
                let mut i: usize = 0;
                while i < n
                    invariant
                        n == entries@.len(),
                        i <= n,
                        out@.len() == i,
                        forall|j: int| 0 <= j < i ==> (#[trigger] out@[j])@ == entries@[j].1@,
                    decreases n - i,
                {
                    out.push(entries[i].1.string.clone());
                    i += 1;
                }
            },
        }
        out
    }

    /// A copy of the value.
    pub fn duplicate(&self) -> (r: BashValue)
        ensures
            r.values_spec() == self.values_spec(),
            r.decay_spec() == self.decay_spec(),
            r.wf() == self.wf(),
    {
        match self {
            BashValue::String(s) => BashValue::String(s.duplicate()),
            BashValue::AssociatedArray(entries) => {
                let n: usize = entries.len();
                let mut out: Vec<(StringSpan, StringSpan)> = Vec::new();
                let mut i: usize = 0;
                while i < n
                    invariant
                        n == entries@.len(),
                        i <= n,
                        out@.len() == i,
                        forall|j: int|
                            0 <= j < i ==> (#[trigger] out@[j]).0@ == entries@[j].0@ && out@[j].1@
                                == entries@[j].1@,
                    decreases n - i,
                {
                    out.push((entries[i].0.duplicate(), entries[i].1.duplicate()));
                    i += 1;
                }
                let r = BashValue::AssociatedArray(out);
                proof {
                    assert(r.values_spec() =~= self.values_spec());
                    lemma_same_keys_same_lowest(out@, entries@, n as int);
                    if keyed_sorted(entries@) {
                        assert forall|i: int, j: int| 0 <= i < j < out@.len() implies lex_lt(
                            (#[trigger] out@[i]).0@,
                            (#[trigger] out@[j]).0@,
                        ) by {
                            assert(lex_lt(entries@[i].0@, entries@[j].0@));
                        }
                    }
                    if keyed_sorted(out@) {
                        assert forall|i: int, j: int| 0 <= i < j < entries@.len() implies lex_lt(
                            (#[trigger] entries@[i]).0@,
                            (#[trigger] entries@[j]).0@,
                        ) by {
                            assert(lex_lt(out@[i].0@, out@[j].0@));
                        }
                    }
                }
                r
            },
            BashValue::IndexedArray(entries) => {
                let n: usize = entries.len();
                let mut out: Vec<(u64, StringSpan)> = Vec::new();
                let mut i: usize = 0;
                while i < n
                    invariant
                        n == entries@.len(),
                        i <= n,
                        out@.len() == i,
                        forall|j: int|
                            0 <= j < i ==> (#[trigger] out@[j]).0 == entries@[j].0 && out@[j].1@
                                == entries@[j].1@,
                    decreases n - i,
                {
                    out.push((entries[i].0, entries[i].1.duplicate()));
                    i += 1;
                }
                let r = BashValue::IndexedArray(out);
                proof {
                    assert(r.values_spec() =~= self.values_spec());
                    lemma_same_indices_same_lowest(out@, entries@, n as int);
                    if indexed_sorted(entries@) {
                        assert forall|i: int, j: int| 0 <= i < j < out@.len() implies (
                        #[trigger] out@[i]).0 < (#[trigger] out@[j]).0 by {
                            assert(entries@[i].0 < entries@[j].0);
                        }
                    }
                    if indexed_sorted(out@) {
                        assert forall|i: int, j: int| 0 <= i < j < entries@.len() implies (
                        #[trigger] entries@[i]).0 < (#[trigger] entries@[j]).0 by {
                            assert(out@[i].0 < out@[j].0);
                        }
                    }
                }
                r
            },
        }
    }
}

/// Two associative arrays with the same keys in the same places have
/// their smallest key in the same place.
pub proof fn lemma_same_keys_same_lowest(
    a: Seq<(StringSpan, StringSpan)>,
    b: Seq<(StringSpan, StringSpan)>,
    n: int,
)
    requires
        0 <= n <= a.len(),
        a.len() == b.len(),
        forall|j: int| 0 <= j < a.len() ==> (#[trigger] a[j]).0@ == b[j].0@,
    ensures
        lowest_key(a, n) == lowest_key(b, n),
        n >= 1 ==> 0 <= lowest_key(a, n) < n,
    decreases n,
{
    if n > 1 {
        lemma_same_keys_same_lowest(a, b, n - 1);
    }
}

/// Two indexed arrays with the same keys in the same places have their
/// lowest key in the same place.
pub proof fn lemma_same_indices_same_lowest(
    a: Seq<(u64, StringSpan)>,
    b: Seq<(u64, StringSpan)>,
    n: int,
)
    requires
        0 <= n <= a.len(),
        a.len() == b.len(),
        forall|j: int| 0 <= j < a.len() ==> (#[trigger] a[j]).0 == b[j].0,
    ensures
        lowest_index(a, n) == lowest_index(b, n),
        n >= 1 ==> 0 <= lowest_index(a, n) < n,
    decreases n,
{
    if n > 1 {
        lemma_same_indices_same_lowest(a, b, n - 1);
    }
}

} // verus!
