//! The variables that a manifest has bound, as the interpreter reports
//! them.

use crate::text::str_eq;
use crate::value::BashValue;
use vstd::prelude::*;

verus! {

/// Names and what they are bound to. A name that is bound again keeps its
/// old binding in the list; the latest one counts.
#[derive(Debug)]
pub struct Environment {
    pub bindings: Vec<(String, BashValue)>,
}

/// Index of the latest binding of `name` among the first `n`, or -1 where
/// there is none.
pub open spec fn latest_binding(bindings: Seq<(String, BashValue)>, name: Seq<char>, n: int) -> int
    decreases n,
{
    if n <= 0 {
        -1
    } else if bindings[n - 1].0@ == name {
        n - 1
    } else {
        latest_binding(bindings, name, n - 1)
    }
}

/// What `latest_binding` finds is a binding of the name, and no later one
/// among the first `n` binds it.
pub proof fn lemma_latest_binding(bindings: Seq<(String, BashValue)>, name: Seq<char>, n: int)
    requires
        0 <= n <= bindings.len(),
    ensures
        -1 <= latest_binding(bindings, name, n) < n,
        latest_binding(bindings, name, n) >= 0 ==> bindings[latest_binding(bindings, name, n)].0@
            == name,
        forall|j: int|
            latest_binding(bindings, name, n) < j < n ==> (#[trigger] bindings[j]).0@ != name,
    decreases n,
{
    if n > 0 && bindings[n - 1].0@ != name {
        lemma_latest_binding(bindings, name, n - 1);
    }
}

impl Environment {
    /// Index of the binding of `name` that counts, or -1.
    pub open spec fn slot(self, name: Seq<char>) -> int {
        latest_binding(self.bindings@, name, self.bindings@.len() as int)
    }

    /// `name` is bound.
    pub open spec fn is_bound(self, name: Seq<char>) -> bool {
        self.slot(name) >= 0
    }

    /// What `name` is bound to.
    pub open spec fn value_of(self, name: Seq<char>) -> BashValue
        recommends
            self.is_bound(name),
    {
        self.bindings@[self.slot(name)].1
    }

    /// An environment in which nothing is bound.
    pub fn new() -> (r: Environment)
        ensures
            r.bindings@.len() == 0,
            forall|name: Seq<char>| !r.is_bound(name),
    {
        Environment { bindings: Vec::new() }
    }

    /// Binds `name` to `value`, in place of what it was bound to before.
    /// Every other name keeps its binding.
    pub fn set(&mut self, name: &str, value: BashValue)
        ensures
            final(self).bindings@.len() == old(self).bindings@.len() + 1,
            final(self).is_bound(name@),
            final(self).value_of(name@) == value,
            forall|other: Seq<char>|
                other != name@ ==> final(self).is_bound(other) == old(self).is_bound(other),
            forall|other: Seq<char>|
                other != name@ && old(self).is_bound(other) ==> final(self).value_of(other) == old(
                    self,
                ).value_of(other),
    {
        let ghost before = self.bindings@;
        let owned = name.to_owned();
        self.bindings.push((owned, value));
        proof {
            let after = self.bindings@;
            let n = before.len() as int;
            assert(after[n].0@ == name@);
            assert forall|other: Seq<char>| other != name@ implies latest_binding(
                after,
                other,
                n + 1,
            ) == latest_binding(before, other, n) by {
                lemma_latest_prefix(after, before, other, n);
            }
            assert forall|other: Seq<char>|
                other != name@ && old(self).is_bound(other) implies self.value_of(other) == old(
                self,
            ).value_of(other) by {
                lemma_latest_binding(before, other, n);
            }
        }
    }

    /// What `name` is bound to, if it is bound.
    pub fn get(&self, name: &str) -> (r: Option<&BashValue>)
        ensures
            r is Some <==> self.is_bound(name@),
            r matches Some(v) ==> *v == self.value_of(name@),
    {
        let mut i: usize = self.bindings.len();
        while i > 0
            invariant
                i <= self.bindings@.len(),
                self.slot(name@) == latest_binding(self.bindings@, name@, i as int),
            decreases i,
        {
            i -= 1;
            if str_eq(self.bindings[i].0.as_str(), name) {
                return Some(&self.bindings[i].1);
            }
        }
        None
    }

    /// The one string that `name` stands for: its value, decayed.
    pub fn get_str(&self, name: &str) -> (r: Option<String>)
        ensures
            r is Some <==> self.is_bound(name@),
            r matches Some(s) ==> s@ == self.value_of(name@).decay_spec(),
    {
        match self.get(name) {
            Some(v) => Some(v.decayed()),
            None => None,
        }
    }

    /// A copy in which the same names stand for values that hold the same
    /// strings.
    pub fn duplicate(&self) -> (r: Environment)
        ensures
            r.same_bindings(*self),
    {
        let n: usize = self.bindings.len();
        let mut out: Vec<(String, BashValue)> = Vec::new();
        let mut i: usize = 0;
        while i < n
            invariant
                n == self.bindings@.len(),
                i <= n,
                out@.len() == i,
                forall|j: int|
                    0 <= j < i ==> {
                        &&& (#[trigger] out@[j]).0@ == self.bindings@[j].0@
                        &&& out@[j].1.values_spec() == self.bindings@[j].1.values_spec()
                        &&& out@[j].1.decay_spec() == self.bindings@[j].1.decay_spec()
                    },
            decreases n - i,
        {
            out.push((self.bindings[i].0.clone(), self.bindings[i].1.duplicate()));
            i += 1;
        }
        Environment { bindings: out }
    }

    /// Both environments bind the same names, in the same order, to values
    /// that hold the same strings.
    pub open spec fn same_bindings(self, other: Environment) -> bool {
        &&& self.bindings@.len() == other.bindings@.len()
        &&& forall|j: int|
            0 <= j < self.bindings@.len() ==> {
                &&& (#[trigger] self.bindings@[j]).0@ == other.bindings@[j].0@
                &&& self.bindings@[j].1.values_spec() == other.bindings@[j].1.values_spec()
                &&& self.bindings@[j].1.decay_spec() == other.bindings@[j].1.decay_spec()
            }
    }
}

/// The latest binding of a name among the first `n` is the same in two
/// lists that agree on their first `n` entries.
pub proof fn lemma_latest_prefix(
    a: Seq<(String, BashValue)>,
    b: Seq<(String, BashValue)>,
    name: Seq<char>,
    n: int,
)
    requires
        0 <= n <= b.len(),
        n < a.len(),
        forall|j: int| 0 <= j < n ==> a[j] == b[j],
        a[n].0@ != name,
    ensures
        latest_binding(a, name, n + 1) == latest_binding(b, name, n),
{
    lemma_latest_agree(a, b, name, n);
}

/// Two lists that agree on their first `n` entries have the latest binding
/// of a name among them in the same place.
pub proof fn lemma_latest_agree(
    a: Seq<(String, BashValue)>,
    b: Seq<(String, BashValue)>,
    name: Seq<char>,
    n: int,
)
    requires
        0 <= n <= b.len(),
        n <= a.len(),
        forall|j: int| 0 <= j < n ==> (#[trigger] a[j]).0@ == b[j].0@,
    ensures
        latest_binding(a, name, n) == latest_binding(b, name, n),
    decreases n,
{
    if n > 0 {
        lemma_latest_agree(a, b, name, n - 1);
    }
}

/// In two environments with the same bindings every name is bound in the
/// same place.
pub proof fn lemma_same_bindings_same_slot(a: Environment, b: Environment, name: Seq<char>)
    requires
        a.same_bindings(b),
    ensures
        a.slot(name) == b.slot(name),
        a.is_bound(name) == b.is_bound(name),
        a.is_bound(name) ==> a.value_of(name).values_spec() == b.value_of(name).values_spec(),
        a.is_bound(name) ==> a.value_of(name).decay_spec() == b.value_of(name).decay_spec(),
{
    lemma_latest_agree(a.bindings@, b.bindings@, name, a.bindings@.len() as int);
    lemma_latest_binding(a.bindings@, name, a.bindings@.len() as int);
}

} // verus!
