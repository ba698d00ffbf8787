use pacstall::clamp::{ArchDistro, DistroClampError, DistroRelease};
use pacstall::environment::Environment;
use pacstall::keys::{Arch, PackageKind};
use pacstall::manifest::{
    arch_list, assemble, base_from, clamp_list, default_pkginfo, get_env_var_as_array, get_env_var_as_string,
    maintainer_list, override_function, SourceError,
};
use pacstall::overrides::{step, OverrideAction, OverrideEvent, OverrideState};
use pacstall::resolver::{candidates, collect_archdistro, distro_tokens, name_for};
use pacstall::srcinfo::Priority;
use pacstall::value::{BashValue, StringSpan};

fn scalar(text: &str) -> BashValue {
    BashValue::String(StringSpan::from(String::from(text)))
}

fn indexed(texts: &[&str]) -> BashValue {
    BashValue::IndexedArray(
        texts
            .iter()
            .enumerate()
            .map(|(i, t)| (i as u64, StringSpan::from(String::from(*t))))
            .collect(),
    )
}

fn releases() -> Vec<DistroRelease> {
    vec![
        DistroRelease {
            codename: String::from("jammy"),
            series: String::from("jammy"),
            version: Some(String::from("22.04")),
        },
        DistroRelease { codename: String::from("sid"), series: String::from("sid"), version: None },
    ]
}

fn simple() -> Environment {
    let mut env = Environment::new();
    env.set("pkgname", scalar("foo"));
    env.set("pkgver", scalar("1.2.3"));
    env.set("pkgdesc", scalar("the parent's words"));
    env
}

fn tag_of(entry: &(ArchDistro, String)) -> String {
    entry.0.suffix()
}

#[test]
fn absent_field_resolves_to_nothing() {
    let env = simple();
    assert!(collect_archdistro(&env, "depends", &Arch::all(), &releases()).is_empty());
    assert!(collect_archdistro(&Environment::new(), "depends", &Arch::all(), &releases()).is_empty());
    assert!(collect_archdistro(&env, "depends", &vec![], &vec![]).is_empty());
}

#[test]
fn candidates_come_in_a_fixed_order() {
    let arches = vec![Arch::Amd64, Arch::Arm64];
    let tokens = distro_tokens(&releases());
    assert_eq!(tokens, vec![String::from("jammy"), String::from("22.04"), String::from("sid")]);
    let tags = candidates(&arches, &tokens);
    let names: Vec<String> = tags.iter().map(|t| name_for("depends", t)).collect();
    assert_eq!(
        names,
        vec![
            "depends",
            "depends_amd64",
            "depends_arm64",
            "depends_jammy",
            "depends_22.04",
            "depends_sid",
            "depends_jammy_amd64",
            "depends_22.04_amd64",
            "depends_sid_amd64",
            "depends_jammy_arm64",
            "depends_22.04_arm64",
            "depends_sid_arm64",
        ]
    );
    assert_eq!(candidates(&Arch::all(), &tokens).len(), 1 + 16 + 3 + 48);
}

#[test]
fn every_bound_variant_is_resolved_with_its_tag() {
    let mut env = simple();
    env.set("depends_jammy_amd64", scalar("both"));
    env.set("depends_arm64", indexed(&["arm-a", "arm-b"]));
    env.set("depends", indexed(&["one", "two"]));
    env.set("depends_sid", scalar("unstable"));
    env.set("depends_bogus", scalar("never looked at"));
    let found = collect_archdistro(&env, "depends", &Arch::all(), &releases());
    let got: Vec<(String, String)> = found.iter().map(|e| (tag_of(e), e.1.clone())).collect();
    let want: Vec<(String, String)> = vec![
        ("", "one"),
        ("", "two"),
        ("arm64", "arm-a"),
        ("arm64", "arm-b"),
        ("sid", "unstable"),
        ("jammy_amd64", "both"),
    ]
    .into_iter()
    .map(|(a, b)| (String::from(a), String::from(b)))
    .collect();
    assert_eq!(got, want);
    assert!(found[0].0.arch.is_none() && found[0].0.distro.is_none());
    assert!(matches!(found[2].0.arch, Some(Arch::Arm64)));
    assert!(matches!(found[5].0.arch, Some(Arch::Amd64)));
    assert_eq!(found[5].0.distro.as_deref(), Some("jammy"));
}

#[test]
fn resolving_twice_gives_the_same_list() {
    let mut env = simple();
    env.set("source", indexed(&["a", "b"]));
    env.set("source_amd64", scalar("c"));
    let first = collect_archdistro(&env, "source", &Arch::all(), &releases());
    let second = collect_archdistro(&env, "source", &Arch::all(), &releases());
    let copy = collect_archdistro(&env.duplicate(), "source", &Arch::all(), &releases());
    let flat = |v: &Vec<(ArchDistro, String)>| -> Vec<(String, String)> {
        v.iter().map(|e| (e.0.suffix(), e.1.clone())).collect()
    };
    assert_eq!(flat(&first), flat(&second));
    assert_eq!(flat(&first), flat(&copy));
    assert_eq!(first.len(), 3);
}

#[test]
fn the_latest_binding_counts() {
    let mut env = simple();
    assert_eq!(env.get_str("pkgdesc"), Some(String::from("the parent's words")));
    env.set("pkgdesc", scalar("rebound"));
    assert_eq!(env.get_str("pkgdesc"), Some(String::from("rebound")));
    assert_eq!(env.get_str("pkgver"), Some(String::from("1.2.3")));
    assert!(env.get("url").is_none());
    assert!(env.get_str("url").is_none());
    assert_eq!(get_env_var_as_string(&env, "url"), "");
    assert_eq!(get_env_var_as_string(&env, "pkgdesc"), "rebound");
    assert!(get_env_var_as_array(&env, "license").is_empty());
    env.set("license", indexed(&["MIT", "GPL"]));
    assert_eq!(get_env_var_as_array(&env, "license"), vec![String::from("MIT"), String::from("GPL")]);
    assert_eq!(get_env_var_as_array(&env, "pkgname"), vec![String::from("foo")]);
}

#[test]
fn single_package_is_described_from_the_manifest() {
    let mut env = simple();
    env.set("pkgrel", scalar("7"));
    env.set("epoch", scalar("+2"));
    env.set("kver", scalar(">=6.1"));
    env.set("mask", indexed(&["bar"]));
    env.set("arch", indexed(&["AMD64", "mips"]));
    env.set("priority", scalar("Required"));
    env.set("url", scalar("https://example.org"));
    env.set("sha256sums_amd64", scalar("abc"));
    env.set("compatible", indexed(&["ubuntu:22.04", "nonsense", "*:*", "debian:*"]));
    let info = assemble(&env, &vec![], &Arch::all(), &releases()).unwrap();
    assert_eq!(info.len(), 1);
    assert_eq!(info.pkgbase.pkgbase.text(), "foo");
    assert_eq!(info.pkgbase.pkgver, "1.2.3");
    assert_eq!(info.pkgbase.pkgrel, 7);
    assert_eq!(info.pkgbase.epoch, 2);
    assert_eq!(info.pkgbase.kver.as_deref(), Some(">=6.1"));
    assert_eq!(info.pkgbase.mask, vec![String::from("bar")]);
    assert_eq!(info.pkgbase.pkgdesc, "the parent's words");
    assert_eq!(info.pkgbase.compatible.len(), 2);
    assert_eq!(info.pkgbase.compatible[0].version(), "22.04");
    assert_eq!(info.pkgbase.compatible[1].distro(), "debian");
    assert!(info.pkgbase.incompatible.is_empty());
    assert_eq!(info.pkgbase.sha256sums.len(), 1);
    assert_eq!(info.pkgbase.sha256sums[0].1, "abc");
    let pkg = &info.packages[0];
    assert_eq!(pkg.pkgname.text(), "foo");
    assert_eq!(pkg.pkgname.kind, PackageKind::Source);
    assert_eq!(pkg.pkgdesc, "the parent's words");
    assert_eq!(pkg.url, "https://example.org");
    assert_eq!(pkg.priority, Priority::Required);
    assert_eq!(pkg.arch.len(), 2);
    assert!(matches!(pkg.arch[0], Arch::Amd64));
    assert!(matches!(&pkg.arch[1], Arch::Other(name) if name == "mips"));
    assert!(info.is_child(&pkg.pkgname));
    assert!(info.is_parent(&pkg.pkgname));
}

#[test]
fn defaults_stand_in_for_what_is_not_bound() {
    let env = simple();
    let base = base_from(&env, &Arch::all(), &releases()).unwrap();
    assert_eq!(base.pkgrel, 1);
    assert_eq!(base.epoch, 0);
    assert!(base.kver.is_none());
    assert!(base.source.is_empty());
    let pkg = default_pkginfo(&env, "foo-deb", &Arch::all(), &releases());
    assert_eq!(pkg.priority, Priority::Optional);
    assert_eq!(pkg.pkgname.kind, PackageKind::Deb);
    assert_eq!(pkg.url, "");
    assert!(pkg.arch.is_empty());
    assert!(arch_list(&env).is_empty());
}

#[test]
fn pkgbase_wins_over_pkgname() {
    let mut env = simple();
    env.set("pkgbase", scalar("base-git"));
    let base = base_from(&env, &Arch::all(), &releases()).unwrap();
    assert_eq!(base.pkgbase.text(), "base-git");
    assert_eq!(base.pkgbase.kind, PackageKind::Git);
}

#[test]
fn a_number_that_is_none_is_a_parse_error() {
    let mut env = simple();
    env.set("pkgrel", scalar("one"));
    assert!(matches!(base_from(&env, &Arch::all(), &releases()), Err(SourceError::Parse(_))));
    let mut env = simple();
    env.set("epoch", scalar(""));
    assert!(matches!(assemble(&env, &vec![], &Arch::all(), &releases()), Err(SourceError::Parse(_))));
    let mut env = simple();
    env.set("epoch", scalar("-1"));
    assert!(matches!(base_from(&env, &Arch::all(), &releases()), Err(SourceError::Parse(_))));
    let mut env = simple();
    env.set("pkgrel", scalar(" 3"));
    assert!(matches!(base_from(&env, &Arch::all(), &releases()), Err(SourceError::Parse(_))));
    let mut env = simple();
    env.set("pkgrel", scalar("99999999999999999999999999999"));
    assert!(matches!(base_from(&env, &Arch::all(), &releases()), Err(SourceError::Parse(_))));
}

#[test]
fn a_scalar_that_is_no_clamp_is_an_error() {
    let mut env = simple();
    env.set("compatible", scalar("ubuntu"));
    assert!(matches!(clamp_list(&env, "compatible"), Err(DistroClampError::NoSplit)));
    assert!(matches!(
        base_from(&env, &Arch::all(), &releases()),
        Err(SourceError::DistroClamp(DistroClampError::NoSplit))
    ));
    let mut env = simple();
    env.set("incompatible", scalar("*:*"));
    assert!(matches!(
        base_from(&env, &Arch::all(), &releases()),
        Err(SourceError::DistroClamp(DistroClampError::DoubleGlob))
    ));
    let mut env = simple();
    env.set("incompatible", scalar("debian:12"));
    let list = clamp_list(&env, "incompatible").unwrap();
    assert_eq!(list.len(), 1);
    assert_eq!(list[0].distro(), "debian");
    assert!(clamp_list(&env, "compatible").unwrap().is_empty());
}

#[test]
fn maintainers_give_an_address_in_angle_brackets() {
    let mut env = simple();
    assert!(maintainer_list(&env).unwrap().is_empty());
    env.set("maintainer", scalar("Elsie <elsie@example.org>"));
    assert_eq!(maintainer_list(&env), Ok(vec![String::from("Elsie <elsie@example.org>")]));
    let base = base_from(&env, &Arch::all(), &releases()).unwrap();
    assert_eq!(base.maintainer, vec![String::from("Elsie <elsie@example.org>")]);
    env.set("maintainer", indexed(&["A <a@b.c>", "nobody", "<", "B <b"]));
    assert_eq!(
        maintainer_list(&env),
        Ok(vec![String::from("A <a@b.c>"), String::from("<"), String::from("B <b")])
    );
    env.set("maintainer", scalar("nobody"));
    assert_eq!(maintainer_list(&env), Err(String::from("nobody")));
    match base_from(&env, &Arch::all(), &releases()) {
        Err(SourceError::MaintainerParse(text)) => assert_eq!(text, "nobody"),
        other => panic!("got {:?}", other),
    }
}

#[test]
fn the_first_fault_of_the_shared_part_is_reported() {
    let mut env = simple();
    env.set("maintainer", scalar("nobody"));
    env.set("incompatible", scalar("*:*"));
    assert!(matches!(
        base_from(&env, &Arch::all(), &releases()),
        Err(SourceError::DistroClamp(DistroClampError::DoubleGlob))
    ));
    env.set("epoch", scalar("x"));
    assert!(matches!(assemble(&env, &vec![], &Arch::all(), &releases()), Err(SourceError::Parse(_))));
}

#[test]
fn override_reaches_one_child_only() {
    let mut env = Environment::new();
    env.set("pkgname", indexed(&["a", "b"]));
    env.set("pkgbase", scalar("pair"));
    env.set("pkgver", scalar("1.0"));
    env.set("pkgdesc", scalar("shared words"));
    env.set("depends", scalar("libc"));
    let child_a = env.duplicate();
    let mut child_b = env.duplicate();
    assert_eq!(override_function("b"), "package_b");
    child_b.set("pkgdesc", scalar("words of b"));
    child_b.set("depends_amd64", scalar("libb"));
    let info = assemble(&env, &vec![child_a, child_b], &Arch::all(), &releases()).unwrap();
    assert_eq!(info.len(), 2);
    assert_eq!(info.pkgbase.pkgbase.text(), "pair");
    assert_eq!(info.pkgbase.pkgdesc, "shared words");
    assert_eq!(info.packages[0].pkgname.text(), "a");
    assert_eq!(info.packages[0].pkgdesc, "shared words");
    assert_eq!(info.packages[0].depends.len(), 1);
    assert_eq!(info.packages[1].pkgname.text(), "b");
    assert_eq!(info.packages[1].pkgdesc, "words of b");
    assert_eq!(info.packages[1].depends.len(), 2);
    assert_eq!(info.packages[1].depends[1].1, "libb");
    assert_eq!(env.get_str("pkgdesc"), Some(String::from("shared words")));
    assert!(!info.is_child(&info.pkgbase.pkgbase));
    assert!(info.is_parent(&info.pkgbase.pkgbase));
    assert_eq!(info.find_child(&info.packages[1].pkgname), Some(1));
}

#[test]
fn path_is_put_back_after_a_run() {
    let (state, action) = step(OverrideState::Ready, "package_b", OverrideEvent::Done);
    assert!(matches!(action, OverrideAction::ClearPath));
    let (state, action) = step(state, "package_b", OverrideEvent::Done);
    match action {
        OverrideAction::Invoke { function, argument } => {
            assert_eq!(function, "package_b");
            assert_eq!(argument, "foo");
        }
        other => panic!("got {:?}", other),
    }
    let (state, action) = step(state, "package_b", OverrideEvent::Done);
    assert!(matches!(action, OverrideAction::RestorePath));
    let (state, action) = step(state, "package_b", OverrideEvent::Done);
    assert!(matches!(action, OverrideAction::Stop(Ok(()))));
    assert!(matches!(state, OverrideState::Finished));
}

#[test]
fn path_is_put_back_after_a_failed_run() {
    let (state, _) = step(OverrideState::Ready, "package_b", OverrideEvent::Done);
    let (state, _) = step(state, "package_b", OverrideEvent::Done);
    let (state, action) = step(state, "package_b", OverrideEvent::Refused(String::from("no such function")));
    assert!(matches!(action, OverrideAction::RestorePath));
    let (state, action) = step(state, "package_b", OverrideEvent::Done);
    match action {
        OverrideAction::Stop(Err(SourceError::MissingPackageFunction { name, source })) => {
            assert_eq!(name, "package_b");
            assert_eq!(source, "no such function");
        }
        other => panic!("got {:?}", other),
    }
    assert!(matches!(state, OverrideState::Finished));
}

#[test]
fn interpreter_failures_end_the_run() {
    let (state, _) = step(OverrideState::Ready, "f", OverrideEvent::Done);
    let (state, action) = step(state, "f", OverrideEvent::Refused(String::from("read-only")));
    assert!(matches!(action, OverrideAction::Stop(Err(SourceError::Brush(ref why))) if why == "read-only"));
    assert!(matches!(state, OverrideState::Finished));
    let (state, action) = step(OverrideState::Restoring(None), "f", OverrideEvent::Refused(String::from("x")));
    assert!(matches!(action, OverrideAction::Stop(Err(SourceError::Brush(_)))));
    let (_, action) = step(state, "f", OverrideEvent::Done);
    assert!(matches!(action, OverrideAction::Stop(Ok(()))));
}
