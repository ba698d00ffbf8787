//! The outcome of a check that goes through all of its parts and keeps
//! what each of them found.

use vstd::prelude::*;
use vstd::std_specs::convert::FromSpecImpl;

verus! {

/// Whether one part of a check passed, and if not, why.
#[derive(Debug, Copy, Clone, PartialEq, Eq)]
pub enum PassOrFail<E> {
    Pass,
    Fail(E),
}

/// Which of the two a part of a check came to.
#[derive(Debug, Copy, Clone, PartialEq, Eq, Structural)]
pub enum PassType {
    Passing,
    Failing,
}

/// One part of a check: what it is called, what it is about, where to read
/// more, and how it ended.
#[derive(Debug)]
pub struct MicroCheck<E> {
    pub name: &'static str,
    pub desc: Option<&'static str>,
    pub help_link: Option<&'static str>,
    pub status: PassOrFail<E>,
}

/// The parts of one check, in the order they were tried in.
#[derive(Debug)]
pub struct CheckStatus<E> {
    pub passes: Vec<MicroCheck<E>>,
}

impl<E> PassOrFail<E> {
    /// `Passing` for `Pass`, `Failing` for `Fail`.
    pub open spec fn pass_type_spec(self) -> PassType {
        match self {
            PassOrFail::Pass => PassType::Passing,
            PassOrFail::Fail(_) => PassType::Failing,
        }
    }
}

impl<E> From<PassOrFail<E>> for PassType {
    fn from(value: PassOrFail<E>) -> (r: Self) {
        match value {
            PassOrFail::Pass => PassType::Passing,
            PassOrFail::Fail(_) => PassType::Failing,
        }
    }
}

impl<E> FromSpecImpl<PassOrFail<E>> for PassType {
    open spec fn obeys_from_spec() -> bool {
        true
    }

    open spec fn from_spec(value: PassOrFail<E>) -> Self {
        value.pass_type_spec()
    }
}

impl<E> MicroCheck<E> {
    /// What the part is called.
    pub fn name(&self) -> (r: &'static str)
        ensures
            r == self.name,
    {
        self.name
    }

    /// What the part is about.
    pub fn desc(&self) -> (r: Option<&'static str>)
        ensures
            r == self.desc,
    {
        self.desc
    }

    /// Where to read more.
    pub fn help_link(&self) -> (r: Option<&'static str>)
        ensures
            r == self.help_link,
    {
        self.help_link
    }

    /// Whether the part failed.
    pub fn failed(&self) -> (r: bool)
        ensures
            r == self.status is Fail,
    {
        match self.status {
            PassOrFail::Pass => false,
            PassOrFail::Fail(_) => true,
        }
    }

    /// Whether the part passed.
    pub fn passed(&self) -> (r: bool)
        ensures
            r == self.status is Pass,
    {
        match self.status {
            PassOrFail::Pass => true,
            PassOrFail::Fail(_) => false,
        }
    }

    /// Which of the two the part came to.
    pub fn pass_type(&self) -> (r: PassType)
        ensures
            r == self.status.pass_type_spec(),
    {
        match self.status {
            PassOrFail::Pass => PassType::Passing,
            PassOrFail::Fail(_) => PassType::Failing,
        }
    }

    /// A part with its outcome.
    pub fn new(
        name: &'static str,
        desc: Option<&'static str>,
        help_link: Option<&'static str>,
        status: PassOrFail<E>,
    ) -> (r: Self)
        ensures
            r.name == name,
            r.desc == desc,
            r.help_link == help_link,
            r.status == status,
    {
        MicroCheck { name, desc, status, help_link }
    }
}

/// Some part among the first `n` failed.
pub open spec fn any_failed<E>(passes: Seq<MicroCheck<E>>, n: int) -> bool {
    exists|i: int| 0 <= i < n && (#[trigger] passes[i]).status is Fail
}

/// The parts among the first `n` that came to `pass_type`, in order.
pub open spec fn of_type<E>(passes: Seq<MicroCheck<E>>, pass_type: PassType, n: int) -> Seq<
    MicroCheck<E>,
>
    decreases n,
{
    if n <= 0 {
        Seq::empty()
    } else {
        let before = of_type(passes, pass_type, n - 1);
        if passes[n - 1].status.pass_type_spec() == pass_type {
            before.push(passes[n - 1])
        } else {
            before
        }
    }
}

impl<E> CheckStatus<E> {
    /// A check none of whose parts has been tried.
    pub fn new() -> (r: Self)
        ensures
            r.passes@.len() == 0,
    {
        CheckStatus { passes: Vec::new() }
    }

    /// What part `idx` is called, if there are that many.
    pub fn name(&self, idx: usize) -> (r: Option<&str>)
        ensures
            idx < self.passes@.len() ==> r == Some::<&str>(self.passes@[idx as int].name),
            idx >= self.passes@.len() ==> r is None,
    {
        if idx < self.passes.len() {
            Some(self.passes[idx].name())
        } else {
            None
        }
    }

    /// How many parts were tried.
    pub fn len(&self) -> (r: usize)
        ensures
            r == self.passes@.len(),
    {
        self.passes.len()
    }

    /// Whether no part was tried.
    pub fn is_empty(&self) -> (r: bool)
        ensures
            r == (self.passes@.len() == 0),
    {
        self.len() == 0
    }

    /// Whether some part failed.
    pub fn has_error(&self) -> (r: bool)
        ensures
            r == any_failed(self.passes@, self.passes@.len() as int),
    {
        let n: usize = self.passes.len();
        let mut i: usize = 0;
        while i < n
            invariant
                n == self.passes@.len(),
                i <= n,
                !any_failed(self.passes@, i as int),
            decreases n - i,
        {
            if self.passes[i].failed() {
                return true;
            }
            i += 1;
        }
        false
    }

    /// The parts that came to `pass_type`, in the order they were tried
    /// in.
    pub fn filter_type(&self, pass_type: PassType) -> (r: Vec<&MicroCheck<E>>)
        ensures
            r@.len() == of_type(self.passes@, pass_type, self.passes@.len() as int).len(),
            forall|j: int|
                0 <= j < r@.len() ==> *(#[trigger] r@[j]) == of_type(
                    self.passes@,
                    pass_type,
                    self.passes@.len() as int,
                )[j],
    {
        let n: usize = self.passes.len();
        let mut out: Vec<&MicroCheck<E>> = Vec::new();
        let mut i: usize = 0;
        while i < n
            invariant
                n == self.passes@.len(),
                i <= n,
                out@.len() == of_type(self.passes@, pass_type, i as int).len(),
                forall|j: int|
                    0 <= j < out@.len() ==> *(#[trigger] out@[j]) == of_type(
                        self.passes@,
                        pass_type,
                        i as int,
                    )[j],
            decreases n - i,
        {
            let pass = &self.passes[i];
            let keep = match pass_type {
                PassType::Passing => pass.passed(),
                PassType::Failing => pass.failed(),
            };
            if keep {
                out.push(pass);
            }
            i += 1;
        }
        out
    }

    /// Adds a part behind those that were tried before.
    pub fn push(&mut self, chk: MicroCheck<E>)
        ensures
            final(self).passes@ == old(self).passes@.push(chk),
    {
        self.passes.push(chk);
    }
}

/// What `filter_type` hands out is made of parts that were tried, each of
/// them of the type asked for; and every part of that type is in it.
pub proof fn lemma_of_type<E>(passes: Seq<MicroCheck<E>>, pass_type: PassType, n: int)
    requires
        0 <= n <= passes.len(),
    ensures
        of_type(passes, pass_type, n).len() <= n,
        forall|j: int|
            0 <= j < of_type(passes, pass_type, n).len() ==> (#[trigger] of_type(
                passes,
                pass_type,
                n,
            )[j]).status.pass_type_spec() == pass_type,
        forall|i: int|
            0 <= i < n && (#[trigger] passes[i]).status.pass_type_spec() == pass_type ==> of_type(
                passes,
                pass_type,
                n,
            ).contains(passes[i]),
    decreases n,
{
    if n > 0 {
        lemma_of_type(passes, pass_type, n - 1);
        let before = of_type(passes, pass_type, n - 1);
        let now = of_type(passes, pass_type, n);
        assert forall|i: int|
            0 <= i < n && (#[trigger] passes[i]).status.pass_type_spec()
                == pass_type implies now.contains(passes[i]) by {
            if i < n - 1 {
                assert(before.contains(passes[i]));
                let k = choose|k: int| 0 <= k < before.len() && before[k] == passes[i];
                assert(now[k] == passes[i]);
            } else {
                assert(now[now.len() - 1] == passes[i]);
            }
        }
    }
}

} // verus!
