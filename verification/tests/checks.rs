use pacstall::checks::deb::{DebSource, DebSourceError};
use pacstall::checks::Check;
use pacstall::checks::gives::{Gives, GivesError};
use pacstall::checks::hash::HashError;
use pacstall::checks::incompatible::{Incompatible, IncompatibleError, LeanClamp};
use pacstall::checks::kver::{Kver, KverError};
use pacstall::checks::mask::{Mask, MaskError};
use pacstall::checks::pacname::{Pacname, PacnameError};
use pacstall::checks::pkgdesc::{Pkgdesc, PkgdescError};
use pacstall::checks::runner::{CheckError, CheckKind, Checks};
use pacstall::clamp::{ArchDistro, DistroClamp, Host};
use pacstall::keys::{Arch, HashSumType, PackageString};
use pacstall::report::pkgver::PkgverError;
use pacstall::srcinfo::{PkgBase, PkgInfo, Priority, SrcInfo};

fn host() -> Host {
    Host {
        arch: Arch::Amd64,
        clamp: DistroClamp {
            distro: String::from("ubuntu"),
            version: String::from("24.04"),
            codename: Some(String::from("noble")),
        },
    }
}

fn package(name: &str) -> PkgInfo {
    PkgInfo {
        pkgname: PackageString::parse(name),
        pkgdesc: String::from("a package"),
        url: String::new(),
        priority: Priority::Optional,
        arch: vec![],
        license: vec![],
        gives: vec![],
        depends: vec![],
        checkdepends: vec![],
        optdepends: vec![],
        checkconflicts: vec![],
        conflicts: vec![],
        provides: vec![],
        breaks: vec![],
        replaces: vec![],
        enhances: vec![],
        recommends: vec![],
        suggests: vec![],
        backup: vec![],
        repology: vec![],
    }
}

fn manifest(name: &str) -> SrcInfo {
    SrcInfo {
        pkgbase: PkgBase {
            pkgbase: PackageString::parse(name),
            pkgdesc: String::from("a package"),
            pkgver: String::from("1.0.0"),
            pkgrel: 1,
            epoch: 0,
            mask: vec![],
            kver: None,
            compatible: vec![],
            incompatible: vec![],
            maintainer: vec![],
            source: vec![],
            noextract: vec![],
            nosubmodules: vec![],
            md5sums: vec![],
            sha1sums: vec![],
            sha224sums: vec![],
            sha256sums: vec![],
            sha384sums: vec![],
            sha512sums: vec![],
            b2sums: vec![],
            makedepends: vec![],
            makeconflicts: vec![],
        },
        packages: vec![package(name)],
    }
}

fn plain(text: &str) -> (ArchDistro, String) {
    (ArchDistro::plain(), String::from(text))
}

fn for_arch(arch: Arch, text: &str) -> (ArchDistro, String) {
    (ArchDistro { arch: Some(arch), distro: None }, String::from(text))
}

fn pacname_of(name: &str) -> Result<(), PacnameError> {
    let info = manifest(name);
    assert!(info.is_child(&PackageString::parse(name)));
    Pacname.check(&PackageString::parse(name), &info, &host())
}

#[test]
#[should_panic]
fn length_too_small() {
    Pacname::check_len("f").unwrap();
}

#[test]
fn lengh_works() {
    assert!(Pacname::check_len("foobar").is_ok());
}

#[test]
#[should_panic]
fn has_uppercase() {
    Pacname::check_lowercase("neofetcH").unwrap();
}

#[test]
#[should_panic]
fn alnum() {
    Pacname::check_alnum("foo%bar").unwrap();
}

#[test]
fn pacname_rules_one_by_one() {
    assert_eq!(
        Pacname::check_len("f"),
        Err(PacnameError::TwoChars { pacname: "pacname", text: String::from("f") })
    );
    assert_eq!(Pacname::check_len(""), Err(PacnameError::TwoChars { pacname: "pacname", text: String::new() }));
    assert!(Pacname::check_len("é").is_ok());
    assert_eq!(
        Pacname::check_alphanumeric("+x"),
        Err(PacnameError::Alphanumeric { pacname: "pacname", text: String::from("+x") })
    );
    assert!(Pacname::check_alphanumeric("x+").is_ok());
    assert!(Pacname::check_alphanumeric("").is_ok());
    assert_eq!(
        Pacname::check_lowercase("neofetcH"),
        Err(PacnameError::Uppercase { pacname: "pacname", text: String::from("neofetcH") })
    );
    assert!(Pacname::check_lowercase("caf\u{c9}").is_ok());
    assert_eq!(
        Pacname::check_alnum("foo%bar"),
        Err(PacnameError::Alnum { pacname: "pacname", text: String::from("foo%bar") })
    );
    assert_eq!(
        Pacname::check_alnum("foo+bar"),
        Err(PacnameError::Alnum { pacname: "pacname", text: String::from("foo+bar") })
    );
    assert!(Pacname::check_alnum("foo-bar.2").is_ok());
}

#[test]
fn pacname_scenarios() {
    assert_eq!(
        pacname_of("Pacstall"),
        Err(PacnameError::Uppercase { pacname: "pacname", text: String::from("Pacstall") })
    );
    assert_eq!(pacname_of("ab"), Ok(()));
    assert_eq!(pacname_of("a"), Err(PacnameError::TwoChars { pacname: "pacname", text: String::from("a") }));
    assert_eq!(
        pacname_of(".ab"),
        Err(PacnameError::Alphanumeric { pacname: "pacname", text: String::from(".ab") })
    );
    assert_eq!(
        pacname_of("foo%bar"),
        Err(PacnameError::Alnum { pacname: "pacname", text: String::from("foo%bar") })
    );
}

#[test]
fn pacname_reports_the_first_rule_broken() {
    assert_eq!(pacname_of("-"), Err(PacnameError::TwoChars { pacname: "pacname", text: String::from("-") }));
    assert_eq!(
        pacname_of("-A%"),
        Err(PacnameError::Alphanumeric { pacname: "pacname", text: String::from("-A%") })
    );
    assert_eq!(
        pacname_of("a%B"),
        Err(PacnameError::Uppercase { pacname: "pacname", text: String::from("a%B") })
    );
}

#[test]
fn pacname_checks_the_parent_too() {
    let mut info = manifest("child-one");
    info.pkgbase.pkgbase = PackageString::parse("Base");
    let parent = PackageString::parse("Base");
    assert!(info.is_parent(&parent));
    assert!(!info.is_child(&parent));
    assert_eq!(
        Pacname.check(&parent, &info, &host()),
        Err(PacnameError::Uppercase { pacname: "pacname", text: String::from("Base") })
    );
}

#[test]
fn errors_are_lifted_whole() {
    let e = PacnameError::TwoChars { pacname: "pacname", text: String::from("a") };
    match CheckError::from(e) {
        CheckError::Pacname(PacnameError::TwoChars { pacname, text }) => {
            assert_eq!(pacname, "pacname");
            assert_eq!(text, "a");
        }
        other => panic!("got {:?}", other),
    }
    assert!(matches!(CheckError::from(MaskError::Empty { key: "mask", index: 2 }), CheckError::Mask(_)));
    assert!(matches!(CheckError::from(PkgverError::InvalidChars), CheckError::Pkgver(PkgverError::InvalidChars)));
    assert!(matches!(
        CheckError::from(pacstall::clamp::DistroClampError::EmptyVersion),
        CheckError::DistroClampError(_)
    ));
    let lifted = pacstall::checks::runner::BuildError::from(CheckError::from(GivesError::NoGives("gives")));
    assert!(matches!(lifted, pacstall::checks::runner::BuildError::CheckError(CheckError::Gives(_))));
    assert_eq!(Pacname.name(), "pacname");
}

#[test]
fn gives_passes_without_entries_unless_deb() {
    let info = manifest("foo");
    assert_eq!(Gives.check(&PackageString::parse("foo"), &info, &host()), Ok(()));
    let deb = manifest("foo-deb");
    assert_eq!(Gives.check(&PackageString::parse("foo-deb"), &deb, &host()), Err(GivesError::NoGives("gives")));
    assert_eq!(Gives.check(&PackageString::parse("elsewhere-deb"), &deb, &host()), Err(GivesError::NoGives("gives")));
    assert_eq!(Gives.check(&PackageString::parse("elsewhere"), &deb, &host()), Ok(()));
}

#[test]
fn gives_holds_applicable_entries_to_the_rules() {
    let mut info = manifest("foo-deb");
    info.packages[0].gives = vec![plain("foo")];
    assert_eq!(Gives.check(&PackageString::parse("foo-deb"), &info, &host()), Ok(()));
    info.packages[0].gives = vec![plain("Foo")];
    assert_eq!(
        Gives.check(&PackageString::parse("foo-deb"), &info, &host()),
        Err(GivesError::Uppercase { pacname: "gives", text: String::from("Foo") })
    );
    info.packages[0].gives = vec![for_arch(Arch::Arm64, "Foo"), plain("ok")];
    assert_eq!(Gives.check(&PackageString::parse("foo-deb"), &info, &host()), Ok(()));
    info.packages[0].gives = vec![for_arch(Arch::Arm64, "F")];
    assert_eq!(Gives.check(&PackageString::parse("foo-deb"), &info, &host()), Ok(()));
}

#[test]
fn gives_tries_each_rule_on_all_entries_before_the_next() {
    let entries = vec![plain("Upper"), plain("x"), plain(".dot")];
    assert_eq!(
        Gives::check_entries(&entries, &host()),
        Err(GivesError::TwoChars { pacname: "gives", text: String::from("x") })
    );
    let entries = vec![plain("Upper"), plain(".dot")];
    assert_eq!(
        Gives::check_entries(&entries, &host()),
        Err(GivesError::Alphanumeric { pacname: "gives", text: String::from(".dot") })
    );
    let entries = vec![plain("a%b"), plain("Upper")];
    assert_eq!(
        Gives::check_entries(&entries, &host()),
        Err(GivesError::Uppercase { pacname: "gives", text: String::from("Upper") })
    );
    let entries = vec![plain("a%b")];
    assert_eq!(
        Gives::check_entries(&entries, &host()),
        Err(GivesError::Alnum { pacname: "gives", text: String::from("a%b") })
    );
    assert_eq!(Gives::check_len("a"), Err(GivesError::TwoChars { pacname: "gives", text: String::from("a") }));
    assert!(Gives::check_alphanumeric("a-").is_ok());
    assert!(Gives::check_lowercase("abc").is_ok());
    assert!(Gives::check_alnum("abc").is_ok());
    assert_eq!(Gives.name(), "gives");
}

#[test]
fn hash_of_wrong_length_is_reported() {
    let mut info = manifest("foo");
    info.pkgbase.sha256sums = vec![plain("0123456789")];
    let r = pacstall::checks::hash::Hash.check(&PackageString::parse("foo"), &info, &host());
    assert_eq!(r, Err(HashError::UnexpectedLength { variant: HashSumType::Sha256, got: 10, expected: 64 }));
}

#[test]
fn hash_of_right_length_passes() {
    let mut info = manifest("foo");
    info.pkgbase.sha256sums = vec![plain("0231d51a2cd76b8b8557a6d35a5b64658542788f55a73b6b1f48d5942ff9bb16")];
    info.pkgbase.md5sums = vec![plain("d41d8cd98f00b204e9800998ecf8427e")];
    let r = pacstall::checks::hash::Hash.check(&PackageString::parse("foo"), &info, &host());
    assert_eq!(r, Ok(()));
}

#[test]
fn hash_lists_are_tried_in_order() {
    let mut info = manifest("foo");
    info.pkgbase.b2sums = vec![plain("short")];
    info.pkgbase.sha1sums = vec![plain("da39a3ee5e6b4b0d3255bfef95601890afd80709"), plain("xyz")];
    info.pkgbase.sha512sums = vec![plain("")];
    let r = pacstall::checks::hash::Hash.check(&PackageString::parse("foo"), &info, &host());
    assert_eq!(r, Err(HashError::UnexpectedLength { variant: HashSumType::Sha1, got: 3, expected: 40 }));
    info.pkgbase.sha1sums = vec![];
    let r = pacstall::checks::hash::Hash.check(&PackageString::parse("foo"), &info, &host());
    assert_eq!(r, Err(HashError::UnexpectedLength { variant: HashSumType::Sha512, got: 0, expected: 128 }));
    info.pkgbase.sha512sums = vec![];
    let r = pacstall::checks::hash::Hash.check(&PackageString::parse("foo"), &info, &host());
    assert_eq!(r, Err(HashError::UnexpectedLength { variant: HashSumType::B2, got: 5, expected: 128 }));
    assert_eq!(pacstall::checks::hash::Hash.name(), "hash");
}

#[test]
fn deb_source_with_one_deb_passes() {
    let mut info = manifest("foo-deb");
    info.pkgbase.source = vec![plain("https://example.org/foo.deb")];
    assert!(DebSource.check(&PackageString::parse("foo-deb"), &info, &host()).is_ok());
}

#[test]
fn deb_source_with_two_entries_is_not_singular() {
    let mut info = manifest("foo-deb");
    info.pkgbase.source = vec![plain("https://example.org/foo.deb"), plain("https://example.org/bar.deb")];
    match DebSource.check(&PackageString::parse("foo-deb"), &info, &host()) {
        Err(DebSourceError::Singular(label)) => assert_eq!(label, "source"),
        other => panic!("got {:?}", other),
    }
}

#[test]
fn deb_source_that_is_no_deb_is_refused() {
    let mut info = manifest("foo-deb");
    info.pkgbase.source = vec![plain("https://example.org/foo.tar.gz")];
    match DebSource.check(&PackageString::parse("foo-deb"), &info, &host()) {
        Err(DebSourceError::NonDeb(label)) => assert_eq!(label, "source"),
        other => panic!("got {:?}", other),
    }
}

#[test]
fn deb_source_is_not_looked_at_for_other_kinds() {
    let mut info = manifest("foo");
    info.pkgbase.source = vec![plain("a.tar.gz"), plain("b.tar.gz")];
    assert!(DebSource.check(&PackageString::parse("foo"), &info, &host()).is_ok());
    assert!(DebSource.check(&PackageString::parse("foo-git"), &info, &host()).is_ok());
}

#[test]
fn deb_source_counts_the_entries_that_hold_on_the_host() {
    let mut info = manifest("foo-deb");
    info.pkgbase.source = vec![for_arch(Arch::Arm64, "one.tar"), for_arch(Arch::Arm64, "two.tar"), plain("foo.deb")];
    assert!(DebSource.check(&PackageString::parse("foo-deb"), &info, &host()).is_ok());
    info.pkgbase.source.push(for_arch(Arch::Amd64, "again.deb"));
    match DebSource.check(&PackageString::parse("foo-deb"), &info, &host()) {
        Err(DebSourceError::Singular(label)) => assert_eq!(label, "source_amd64"),
        other => panic!("got {:?}", other),
    }
    info.pkgbase.source = vec![for_arch(Arch::Arm64, "x.deb"), for_arch(Arch::X86_64, "foo.zip")];
    match DebSource.check(&PackageString::parse("foo-deb"), &info, &host()) {
        Err(DebSourceError::NonDeb(label)) => assert_eq!(label, "source_x86_64"),
        other => panic!("got {:?}", other),
    }
    info.pkgbase.source = vec![for_arch(Arch::Arm64, "x.zip")];
    assert!(DebSource.check(&PackageString::parse("foo-deb"), &info, &host()).is_ok());
    info.pkgbase.source = vec![];
    assert!(DebSource.check(&PackageString::parse("foo-deb"), &info, &host()).is_ok());
    let tagged = (
        ArchDistro { arch: Some(Arch::Amd64), distro: Some(String::from("noble")) },
        String::from("pool/foo.tar"),
    );
    match DebSource::check_sources(&vec![tagged], &host()) {
        Err(DebSourceError::NonDeb(label)) => assert_eq!(label, "source_noble_amd64"),
        other => panic!("got {:?}", other),
    }
    assert_eq!(DebSource.name(), "deb source");
}

#[test]
fn pkgdesc_must_not_be_empty() {
    let mut info = manifest("foo");
    let name = PackageString::parse("foo");
    assert_eq!(Pkgdesc.check(&name, &info, &host()), Ok(()));
    info.packages[0].pkgdesc = String::new();
    assert_eq!(
        Pkgdesc.check(&name, &info, &host()),
        Err(PkgdescError::Empty { pkg: String::from("foo"), var: String::from("pkgdesc") })
    );
    assert_eq!(Pkgdesc.name(), "pkgdesc");
}

#[test]
fn pkgdesc_of_the_parent_is_the_shared_one() {
    let mut info = manifest("child");
    info.pkgbase.pkgbase = PackageString::parse("base");
    info.pkgbase.pkgdesc = String::new();
    assert_eq!(
        Pkgdesc.check(&PackageString::parse("base"), &info, &host()),
        Err(PkgdescError::Empty { pkg: String::from("base"), var: String::from("pkgdesc") })
    );
    assert_eq!(Pkgdesc.check(&PackageString::parse("child"), &info, &host()), Ok(()));
}

#[test]
fn test_simple_duplicate() {
    let incompatible = vec![DistroClamp::parse("ubuntu:18.04").unwrap()];
    let compatible = vec![DistroClamp::parse("ubuntu:18.04").unwrap()];

    assert!(Incompatible::duplicates(&incompatible, &compatible).is_some());
}

#[test]
fn globs_dont_matter() {
    let incompatible = vec![DistroClamp::parse("*:18.04").unwrap()];
    let compatible = vec![DistroClamp::parse("ubuntu:18.04").unwrap()];

    assert!(Incompatible::duplicates(&incompatible, &compatible).is_none());
}

#[test]
fn incompatible_reports_the_first_shared_clamp() {
    let mut info = manifest("foo");
    info.pkgbase.incompatible = vec![
        DistroClamp::parse("debian:12").unwrap(),
        DistroClamp::parse("ubuntu:18.04").unwrap(),
        DistroClamp::parse("ubuntu:20.04").unwrap(),
    ];
    info.pkgbase.compatible = vec![
        DistroClamp::parse("ubuntu:20.04").unwrap(),
        DistroClamp::parse("ubuntu:18.04").unwrap(),
    ];
    info.pkgbase.compatible[1].codename = Some(String::from("bionic"));
    let found = Incompatible::duplicates(&info.pkgbase.incompatible, &info.pkgbase.compatible).unwrap();
    assert_eq!(found.distro(), "ubuntu");
    assert_eq!(found.version(), "18.04");
    assert_eq!(found.codename.as_deref(), Some("bionic"));
    let r = Incompatible.check(&PackageString::parse("foo"), &info, &host());
    assert_eq!(
        r,
        Err(IncompatibleError::Duplicate {
            clamp: LeanClamp { distro: String::from("ubuntu"), version: String::from("18.04") },
            first: "compatible",
            second: "incompatible",
        })
    );
    info.pkgbase.compatible = vec![DistroClamp::parse("*:18.04").unwrap()];
    assert_eq!(Incompatible.check(&PackageString::parse("foo"), &info, &host()), Ok(()));
    assert_eq!(Incompatible.name(), "incompatible/compatible");
    let lean = LeanClamp::from_clamp(&DistroClamp::parse("debian:sid").unwrap());
    assert_eq!(lean.text(), "debian:sid");
}

#[test]
fn mask_entries_must_not_be_empty() {
    let mut info = manifest("foo");
    let name = PackageString::parse("foo");
    assert_eq!(Mask.check(&name, &info, &host()), Ok(()));
    info.pkgbase.mask = vec![String::from("a"), String::new(), String::new()];
    assert_eq!(Mask.check(&name, &info, &host()), Err(MaskError::Empty { key: "mask", index: 1 }));
    info.pkgbase.mask = vec![String::from("a"), String::from("b")];
    assert_eq!(Mask.check(&name, &info, &host()), Ok(()));
    assert_eq!(Mask.name(), "mask");
}

#[test]
fn constraint_exists_double() {
    assert!(Kver::has_constraint_prefix(">=6.14.0"));
}

#[test]
fn constraint_exists_single() {
    assert!(Kver::has_constraint_prefix("<1.0.0"));
}

#[test]
fn has_no_prefix() {
    assert!(!Kver::has_constraint_prefix("6.15.0"));
}

#[test]
fn prefix_at_end() {
    assert!(!Kver::has_constraint_prefix("6.15.0="));
}

#[test]
fn kver_needs_a_constraint() {
    let mut info = manifest("foo");
    let name = PackageString::parse("foo");
    assert_eq!(Kver.check(&name, &info, &host()), Ok(()));
    info.pkgbase.kver = Some(String::from("6.15.0"));
    assert_eq!(
        Kver.check(&name, &info, &host()),
        Err(KverError::Constraint { key: "kver", val: String::from("6.15.0") })
    );
    info.pkgbase.kver = Some(String::from("=6.15.0"));
    assert_eq!(Kver.check(&name, &info, &host()), Ok(()));
    info.pkgbase.kver = Some(String::new());
    assert!(Kver.check(&name, &info, &host()).is_err());
    assert!(Kver::has_constraint_prefix("<=1"));
    assert!(Kver::has_constraint_prefix(">"));
    assert!(!Kver::has_constraint_prefix(""));
    assert_eq!(Kver.name(), "kver");
}

#[test]
fn all_checks_pass_on_a_sound_manifest() {
    let info = manifest("foo");
    let checks = Checks::default();
    assert_eq!(checks.len(), 9);
    let (ran, outcome) = checks.run_traced(&PackageString::parse("foo"), &info, &host());
    assert!(outcome.is_ok());
    assert_eq!(
        ran,
        vec![
            "pacname",
            "pkgver",
            "gives",
            "hash",
            "deb source",
            "pkgdesc",
            "incompatible/compatible",
            "mask",
            "kver"
        ]
    );
    assert!(checks.run(&PackageString::parse("foo"), &info, &host()).is_ok());
    assert!(!checks.timings);
    let timed = checks.with_timings(true);
    assert!(timed.timings);
    assert!(timed.run(&PackageString::parse("foo"), &info, &host()).is_ok());
}

#[test]
fn no_check_runs_behind_the_first_that_fails() {
    let mut info = manifest("foo");
    info.pkgbase.kver = Some(String::from("6.15.0"));
    info.packages[0].pkgdesc = String::new();
    let checks = Checks::new(vec![CheckKind::Mask, CheckKind::Kver, CheckKind::Pkgdesc]);
    let (ran, outcome) = checks.run_traced(&PackageString::parse("foo"), &info, &host());
    assert_eq!(ran, vec!["mask", "kver"]);
    match outcome {
        Err(CheckError::Kver(e)) => {
            assert_eq!(e, KverError::Constraint { key: "kver", val: String::from("6.15.0") })
        }
        other => panic!("got {:?}", other),
    }
    match checks.run(&PackageString::parse("foo"), &info, &host()) {
        Err(CheckError::Kver(_)) => {}
        other => panic!("got {:?}", other),
    }
}

#[test]
fn a_timed_run_times_the_checks_that_passed() {
    let mut info = manifest("foo");
    let name = PackageString::parse("foo");
    let (timings, outcome) = Checks::default().run_timed(&name, &info, &host());
    assert!(outcome.is_ok());
    let names: Vec<&str> = timings.iter().map(|(label, _)| *label).collect();
    assert_eq!(
        names,
        vec![
            "pacname",
            "pkgver",
            "gives",
            "hash",
            "deb source",
            "pkgdesc",
            "incompatible/compatible",
            "mask",
            "kver"
        ]
    );
    info.pkgbase.kver = Some(String::from("6.15.0"));
    info.packages[0].pkgdesc = String::new();
    let checks = Checks::new(vec![CheckKind::Mask, CheckKind::Kver, CheckKind::Pkgdesc]);
    let (timings, outcome) = checks.run_timed(&name, &info, &host());
    assert_eq!(timings.len(), 1);
    assert_eq!(timings[0].0, "mask");
    assert!(matches!(outcome, Err(CheckError::Kver(_))));
}

#[test]
fn the_first_failing_check_is_the_one_reported() {
    let mut info = manifest("Foo");
    info.pkgbase.pkgver = String::from("v1");
    info.pkgbase.mask = vec![String::new()];
    let name = PackageString::parse("Foo");
    let (ran, outcome) = Checks::default().run_traced(&name, &info, &host());
    assert_eq!(ran, vec!["pacname"]);
    assert!(matches!(outcome, Err(CheckError::Pacname(PacnameError::Uppercase { .. }))));
    let checks = Checks::new(vec![CheckKind::Pkgver, CheckKind::Mask, CheckKind::Pacname]);
    let (ran, outcome) = checks.run_traced(&name, &info, &host());
    assert_eq!(ran, vec!["pkgver"]);
    assert!(matches!(outcome, Err(CheckError::Pkgver(PkgverError::NoStartingDigit))));
    let none = Checks::new(vec![]);
    let (ran, outcome) = none.run_traced(&name, &info, &host());
    assert!(ran.is_empty());
    assert!(outcome.is_ok());
}

#[test]
fn each_check_lifts_its_own_error() {
    let mut info = manifest("foo-deb");
    let name = PackageString::parse("foo-deb");
    info.pkgbase.sha1sums = vec![plain("abc")];
    info.pkgbase.source = vec![plain("a.zip")];
    info.pkgbase.compatible = vec![DistroClamp::parse("debian:12").unwrap()];
    info.pkgbase.incompatible = vec![DistroClamp::parse("debian:12").unwrap()];
    info.pkgbase.mask = vec![String::new()];
    assert!(matches!(CheckKind::Gives.check(&name, &info, &host()), Err(CheckError::Gives(GivesError::NoGives(_)))));
    assert!(matches!(CheckKind::Hash.check(&name, &info, &host()), Err(CheckError::Hash(_))));
    assert!(matches!(
        CheckKind::DebSource.check(&name, &info, &host()),
        Err(CheckError::DebSource(DebSourceError::NonDeb(_)))
    ));
    assert!(matches!(
        CheckKind::Incompatible.check(&name, &info, &host()),
        Err(CheckError::IncompatibleError(_))
    ));
    assert!(matches!(CheckKind::Mask.check(&name, &info, &host()), Err(CheckError::Mask(_))));
    assert!(CheckKind::Pacname.check(&name, &info, &host()).is_ok());
    assert!(CheckKind::Pkgdesc.check(&name, &info, &host()).is_ok());
    assert!(CheckKind::Kver.check(&name, &info, &host()).is_ok());
    assert!(CheckKind::Pkgver.check(&name, &info, &host()).is_ok());
    assert_eq!(CheckKind::Pkgver.name(), "pkgver");
    assert_eq!(Checks::default().kind_at(3), CheckKind::Hash);
}
