//! Finds every variant of a field that a manifest has bound: the field's
//! own name, and the name followed by an architecture, by a distribution
//! token, or by both.

use crate::clamp::{ArchDistro, DistroRelease};
use crate::environment::{lemma_same_bindings_same_slot, Environment};
use crate::keys::Arch;
use crate::text::join2;
use vstd::prelude::*;

verus! {

/// The tokens of the first `n` releases, in order: of each its codename,
/// then its version if it has one.
pub open spec fn tokens_upto(releases: Seq<DistroRelease>, n: int) -> Seq<String>
    decreases n,
{
    if n <= 0 {
        Seq::empty()
    } else {
        let before = tokens_upto(releases, n - 1);
        match releases[n - 1].version {
            Some(v) => before.push(releases[n - 1].codename).push(v),
            None => before.push(releases[n - 1].codename),
        }
    }
}

/// The tokens of all releases.
pub open spec fn tokens_of(releases: Seq<DistroRelease>) -> Seq<String> {
    tokens_upto(releases, releases.len() as int)
}

/// The tag that specialises nothing.
pub open spec fn plain_tag() -> ArchDistro {
    ArchDistro { arch: None, distro: None }
}

/// The tag of one architecture.
pub open spec fn arch_tag(a: Arch) -> ArchDistro {
    ArchDistro { arch: Some(a), distro: None }
}

/// The tag of one distribution token.
pub open spec fn token_tag(t: String) -> ArchDistro {
    ArchDistro { arch: None, distro: Some(t) }
}

/// The tag of an architecture and a distribution token.
pub open spec fn cross_tag(a: Arch, t: String) -> ArchDistro {
    ArchDistro { arch: Some(a), distro: Some(t) }
}

/// One tag for each architecture, in order.
pub open spec fn arch_tags(arches: Seq<Arch>) -> Seq<ArchDistro> {
    Seq::new(arches.len(), |i: int| arch_tag(arches[i]))
}

/// One tag for each token, in order.
pub open spec fn token_tags(tokens: Seq<String>) -> Seq<ArchDistro> {
    Seq::new(tokens.len(), |j: int| token_tag(tokens[j]))
}

/// The tags of one architecture with each token, in the order of the
/// tokens.
pub open spec fn row_tags(a: Arch, tokens: Seq<String>) -> Seq<ArchDistro> {
    Seq::new(tokens.len(), |j: int| cross_tag(a, tokens[j]))
}

/// The rows of the first `n` architectures, one after the other.
pub open spec fn cross_tags(arches: Seq<Arch>, tokens: Seq<String>, n: int) -> Seq<ArchDistro>
    decreases n,
{
    if n <= 0 {
        Seq::empty()
    } else {
        cross_tags(arches, tokens, n - 1) + row_tags(arches[n - 1], tokens)
    }
}

/// Every tag that a variable name may carry, in the order in which the
/// names are tried: none, each architecture, each token, each
/// architecture with each token.
pub open spec fn candidate_tags(arches: Seq<Arch>, tokens: Seq<String>) -> Seq<ArchDistro> {
    seq![plain_tag()] + arch_tags(arches) + token_tags(tokens) + cross_tags(
        arches,
        tokens,
        arches.len() as int,
    )
}

/// The name of the variable that holds the values of `base` under `tag`.
pub open spec fn candidate_name(base: Seq<char>, tag: ArchDistro) -> Seq<char> {
    if tag.is_enhanced_spec() {
        base + "_"@ + tag.suffix_spec()
    } else {
        base
    }
}

/// What the variable of `base` under `tag` adds to the result: each of its
/// strings, tagged; nothing where the variable is not bound.
pub open spec fn expansion(env: Environment, base: Seq<char>, tag: ArchDistro) -> Seq<
    (ArchDistro, Seq<char>),
> {
    let name = candidate_name(base, tag);
    if env.is_bound(name) {
        let values = env.value_of(name).values_spec();
        Seq::new(values.len(), |i: int| (tag, values[i]))
    } else {
        Seq::empty()
    }
}

/// What the first `n` of `tags` add to the result, one after the other.
pub open spec fn resolved_upto(env: Environment, base: Seq<char>, tags: Seq<ArchDistro>, n: int)
    -> Seq<(ArchDistro, Seq<char>)>
    decreases n,
{
    if n <= 0 {
        Seq::empty()
    } else {
        resolved_upto(env, base, tags, n - 1) + expansion(env, base, tags[n - 1])
    }
}

/// The whole result for `base`: what every candidate tag adds, in the
/// order of the candidates.
pub open spec fn resolution(
    env: Environment,
    base: Seq<char>,
    arches: Seq<Arch>,
    releases: Seq<DistroRelease>,
) -> Seq<(ArchDistro, Seq<char>)> {
    let tags = candidate_tags(arches, tokens_of(releases));
    resolved_upto(env, base, tags, tags.len() as int)
}

/// A list of tagged strings, each string by its characters.
pub open spec fn tagged_view(v: Seq<(ArchDistro, String)>) -> Seq<(ArchDistro, Seq<char>)> {
    Seq::new(v.len(), |i: int| (v[i].0, v[i].1@))
}

/// The tokens of all releases, in order.
pub fn distro_tokens(releases: &Vec<DistroRelease>) -> (r: Vec<String>)
    ensures
        r@ == tokens_of(releases@),
{
    let n: usize = releases.len();
    let mut out: Vec<String> = Vec::new();
    let mut i: usize = 0;
    while i < n
        invariant
            n == releases@.len(),
            i <= n,
            out@ == tokens_upto(releases@, i as int),
        decreases n - i,
    {
        out.push(releases[i].codename.clone());
        match &releases[i].version {
            Some(v) => {
                out.push(v.clone());
            },
            None => {},
        }
        i += 1;
    }
    out
}

/// Every tag that a variable name may carry, in the order in which the
/// names are tried.
pub fn candidates(arches: &Vec<Arch>, tokens: &Vec<String>) -> (r: Vec<ArchDistro>)
    ensures
        r@ == candidate_tags(arches@, tokens@),
{
    let na: usize = arches.len();
    let nt: usize = tokens.len();
    let mut out: Vec<ArchDistro> = Vec::new();
    out.push(ArchDistro { arch: None, distro: None });
    assert(out@ =~= seq![plain_tag()]);
    let mut i: usize = 0;
    while i < na
        invariant
            na == arches@.len(),
            i <= na,
            out@ =~= seq![plain_tag()] + arch_tags(arches@).take(i as int),
        decreases na - i,
    {
        out.push(ArchDistro { arch: Some(arches[i].duplicate()), distro: None });
        i += 1;
    }
    assert(arch_tags(arches@).take(na as int) =~= arch_tags(arches@));
    let mut j: usize = 0;
    while j < nt
        invariant
            nt == tokens@.len(),
            j <= nt,
            out@ =~= seq![plain_tag()] + arch_tags(arches@) + token_tags(tokens@).take(j as int),
        decreases nt - j,
    {
        out.push(ArchDistro { arch: None, distro: Some(tokens[j].clone()) });
        j += 1;
    }
    assert(token_tags(tokens@).take(nt as int) =~= token_tags(tokens@));
    let ghost head = seq![plain_tag()] + arch_tags(arches@) + token_tags(tokens@);
    assert(out@ =~= head + cross_tags(arches@, tokens@, 0));
    let mut a: usize = 0;
    while a < na
        invariant
            na == arches@.len(),
            nt == tokens@.len(),
            a <= na,
            head == seq![plain_tag()] + arch_tags(arches@) + token_tags(tokens@),
            out@ =~= head + cross_tags(arches@, tokens@, a as int),
        decreases na - a,
    {
        let mut t: usize = 0;
        while t < nt
            invariant
                na == arches@.len(),
                nt == tokens@.len(),
                a < na,
                t <= nt,
                out@ =~= head + cross_tags(arches@, tokens@, a as int) + row_tags(
                    arches@[a as int],
                    tokens@,
                ).take(t as int),
            decreases nt - t,
        {
            out.push(
                ArchDistro { arch: Some(arches[a].duplicate()), distro: Some(tokens[t].clone()) },
            );
            t += 1;
        }
        assert(row_tags(arches@[a as int], tokens@).take(nt as int) =~= row_tags(
            arches@[a as int],
            tokens@,
        ));
        a += 1;
    }
    out
}

/// The name of the variable that holds the values of `base` under `tag`.
pub fn name_for(base: &str, tag: &ArchDistro) -> (r: String)
    ensures
        r@ == candidate_name(base@, *tag),
{
    if tag.is_enhanced() {
        let head = join2(base, "_");
        let suffix = tag.suffix();
        join2(head.as_str(), suffix.as_str())
    } else {
        base.to_owned()
    }
}

/// Looks up the variable of `base_var` under each of `tags` and gathers
/// the strings of those that are bound, each with its tag.
pub fn resolve_tags(env: &Environment, base_var: &str, tags: &Vec<ArchDistro>) -> (r: Vec<
    (ArchDistro, String),
>)
    ensures
        tagged_view(r@) == resolved_upto(*env, base_var@, tags@, tags@.len() as int),
{
    let n: usize = tags.len();
    let mut out: Vec<(ArchDistro, String)> = Vec::new();
    assert(tagged_view(out@) =~= resolved_upto(*env, base_var@, tags@, 0));
    let mut k: usize = 0;
    while k < n
        invariant
            n == tags@.len(),
            k <= n,
            tagged_view(out@) =~= resolved_upto(*env, base_var@, tags@, k as int),
        decreases n - k,
    {
        let name = name_for(base_var, &tags[k]);
        match env.get(name.as_str()) {
            Some(value) => {
                let values = value.values();
                let m: usize = values.len();
                let ghost done = resolved_upto(*env, base_var@, tags@, k as int);
                let ghost add = expansion(*env, base_var@, tags@[k as int]);
                let mut i: usize = 0;
                assert(tagged_view(out@) =~= done + add.take(0));
                while i < m
                    invariant
                        m == values@.len(),
                        m == add.len(),
                        i <= m,
                        k < tags@.len(),
                        add == expansion(*env, base_var@, tags@[k as int]),
                        forall|j: int| 0 <= j < m ==> add[j] == (tags@[k as int], values@[j]@),
                        tagged_view(out@) =~= done + add.take(i as int),
                    decreases m - i,
                {
                    let ghost before = out@;
                    out.push((tags[k].duplicate(), values[i].clone()));
                    proof {
                        assert(tagged_view(out@) =~= tagged_view(before).push(add[i as int]));
                        assert(add.take(i + 1) =~= add.take(i as int).push(add[i as int]));
                    }
                    i += 1;
                }
                assert(add.take(m as int) =~= add);
            },
            None => {
                assert(expansion(*env, base_var@, tags@[k as int]) =~= Seq::empty());
            },
        }
        k += 1;
    }
    out
}

/// Finds all variants of `base_var` that the manifest has bound. The
/// result holds every string of every variant with the variant's tag,
/// whether or not the tag holds on this machine.
pub fn collect_archdistro(
    env: &Environment,
    base_var: &str,
    arches: &Vec<Arch>,
    releases: &Vec<DistroRelease>,
) -> (r: Vec<(ArchDistro, String)>)
    ensures
        tagged_view(r@) == resolution(*env, base_var@, arches@, releases@),
{
    let tokens = distro_tokens(releases);
    let tags = candidates(arches, &tokens);
    resolve_tags(env, base_var, &tags)
}

/// Where none of the candidate names is bound, nothing is resolved.
pub proof fn lemma_unbound_resolves_empty(
    env: Environment,
    base: Seq<char>,
    tags: Seq<ArchDistro>,
    n: int,
)
    requires
        0 <= n <= tags.len(),
        forall|k: int| 0 <= k < n ==> !env.is_bound(candidate_name(base, #[trigger] tags[k])),
    ensures
        resolved_upto(env, base, tags, n) == Seq::<(ArchDistro, Seq<char>)>::empty(),
    decreases n,
{
    if n > 0 {
        lemma_unbound_resolves_empty(env, base, tags, n - 1);
        assert(expansion(env, base, tags[n - 1]) =~= Seq::empty());
        assert(resolved_upto(env, base, tags, n) =~= Seq::empty());
    }
}

/// In an environment that binds nothing, every field resolves to the
/// empty list.
pub proof fn lemma_absent_field_is_empty(
    env: Environment,
    base: Seq<char>,
    arches: Seq<Arch>,
    releases: Seq<DistroRelease>,
)
    requires
        forall|name: Seq<char>| !env.is_bound(name),
    ensures
        resolution(env, base, arches, releases) == Seq::<(ArchDistro, Seq<char>)>::empty(),
{
    let tags = candidate_tags(arches, tokens_of(releases));
    lemma_unbound_resolves_empty(env, base, tags, tags.len() as int);
}

/// Two environments with the same bindings resolve every field to the
/// same list.
pub proof fn lemma_same_bindings_same_resolution(
    a: Environment,
    b: Environment,
    base: Seq<char>,
    tags: Seq<ArchDistro>,
    n: int,
)
    requires
        a.same_bindings(b),
        0 <= n <= tags.len(),
    ensures
        resolved_upto(a, base, tags, n) == resolved_upto(b, base, tags, n),
    decreases n,
{
    if n > 0 {
        lemma_same_bindings_same_resolution(a, b, base, tags, n - 1);
        lemma_same_bindings_same_slot(a, b, candidate_name(base, tags[n - 1]));
        assert(expansion(a, base, tags[n - 1]) =~= expansion(b, base, tags[n - 1]));
    }
}

/// Resolution is a function of the environment, the name, the
/// architectures and the releases: two results for the same four are the
/// same list.
pub proof fn lemma_resolution_deterministic(
    env: Environment,
    base: Seq<char>,
    arches: Seq<Arch>,
    releases: Seq<DistroRelease>,
    first: Seq<(ArchDistro, String)>,
    second: Seq<(ArchDistro, String)>,
)
    requires
        tagged_view(first) == resolution(env, base, arches, releases),
        tagged_view(second) == resolution(env, base, arches, releases),
    ensures
        first.len() == second.len(),
        forall|i: int|
            0 <= i < first.len() ==> (#[trigger] first[i]).0 == second[i].0 && first[i].1@
                == second[i].1@,
{
    assert(tagged_view(first).len() == first.len());
    assert(tagged_view(second).len() == second.len());
    assert forall|i: int| 0 <= i < first.len() implies (#[trigger] first[i]).0 == second[i].0
        && first[i].1@ == second[i].1@ by {
        assert(tagged_view(first)[i] == tagged_view(second)[i]);
    }
}

} // verus!
