use pacstall::report::pkgver::{Pkgver, PkgverError};
use pacstall::report::Check;
use pacstall::status::{CheckStatus, MicroCheck, PassOrFail, PassType};
use pacstall::value::{BashValue, StringSpan};

#[test]
fn starts_with_digit() {
    assert!(Pkgver::starts_with_digit("0.1.2"))
}

#[test]
fn correctly_fails_on_non_digit() {
    assert!(!Pkgver::starts_with_digit("a.1.2"))
}

#[test]
fn pkgver_invalid_chars() {
    assert!(!Pkgver::valid_chars("$.1.2"))
}

#[test]
fn pkgver_edges() {
    assert!(!Pkgver::starts_with_digit(""));
    assert!(Pkgver::starts_with_digit("9"));
    assert!(!Pkgver::starts_with_digit("\u{661}23"));
    assert!(Pkgver::valid_chars("1.2.3-rc1+git~A"));
    assert!(Pkgver::valid_chars(""));
    assert!(!Pkgver::valid_chars("1.2_3"));
}

#[test]
fn verify_stops_at_the_first_fault() {
    assert_eq!(Pkgver::verify("1.0.0"), Ok(()));
    assert_eq!(Pkgver::verify("v1.0"), Err(PkgverError::NoStartingDigit));
    assert_eq!(Pkgver::verify("$1"), Err(PkgverError::NoStartingDigit));
    assert_eq!(Pkgver::verify("1$"), Err(PkgverError::InvalidChars));
    assert_eq!(Pkgver::verify(""), Err(PkgverError::NoStartingDigit));
}

#[test]
fn pkgver_check_reports_both_parts() {
    let status = Pkgver.check(BashValue::String(StringSpan::from(String::from("$.1.2"))));
    assert_eq!(status.len(), 2);
    assert_eq!(status.name(0), Some("pkgver starts with digit"));
    assert_eq!(status.name(1), Some("pkgver has only valid chars"));
    assert!(status.passes[0].status == PassOrFail::Fail(PkgverError::NoStartingDigit));
    assert!(status.passes[1].status == PassOrFail::Fail(PkgverError::InvalidChars));
    assert!(status.has_error());
    let good = Pkgver.check(BashValue::String(StringSpan::from(String::from("0.1.2"))));
    assert!(!good.has_error());
}

#[test]
fn status_starts_empty_and_grows() {
    let mut status: CheckStatus<PkgverError> = CheckStatus::new();
    assert!(status.is_empty());
    assert_eq!(status.len(), 0);
    assert!(!status.has_error());
    assert_eq!(status.name(0), None);
    status.push(MicroCheck::new("first", None, None, PassOrFail::Pass));
    status.push(MicroCheck::new(
        "second",
        Some("what it is about"),
        Some("where to read"),
        PassOrFail::Fail(PkgverError::InvalidChars),
    ));
    status.push(MicroCheck::new("third", None, None, PassOrFail::Pass));
    assert_eq!(status.len(), 3);
    assert!(status.has_error());
    assert_eq!(status.name(1), Some("second"));
    let passing = status.filter_type(PassType::Passing);
    assert_eq!(passing.len(), 2);
    assert_eq!(passing[0].name(), "first");
    assert_eq!(passing[1].name(), "third");
    let failing = status.filter_type(PassType::Failing);
    assert_eq!(failing.len(), 1);
    assert_eq!(failing[0].name(), "second");
}

#[test]
fn micro_check_tells_how_it_ended() {
    let pass: MicroCheck<PkgverError> = MicroCheck::new("a", None, Some("link"), PassOrFail::Pass);
    assert!(pass.passed());
    assert!(!pass.failed());
    assert!(pass.pass_type() == PassType::Passing);
    assert_eq!(pass.desc(), None);
    assert_eq!(pass.help_link(), Some("link"));
    let fail = MicroCheck::new("b", Some("d"), None, PassOrFail::Fail(PkgverError::InvalidChars));
    assert!(fail.failed());
    assert!(!fail.passed());
    assert!(fail.pass_type() == PassType::Failing);
    assert!(PassType::from(PassOrFail::Fail(PkgverError::InvalidChars)) == PassType::Failing);
    assert!(PassType::from(PassOrFail::<PkgverError>::Pass) == PassType::Passing);
}
