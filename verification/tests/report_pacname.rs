use pacstall::report::pacname::{Pacname, PacnameError};
use pacstall::report::Check;
use pacstall::status::{PassOrFail, PassType};
use pacstall::value::{BashValue, StringSpan};

#[test]
fn pacname_exists() {
    assert!(Pacname::is_present("hello"))
}

#[test]
fn not_exists() {
    assert!(!Pacname::is_present(""))
}

#[test]
fn below_minimum_length() {
    assert!(!Pacname::two_minimum_chars("f").0)
}

#[test]
fn passes_minimum_length() {
    assert_eq!(Pacname::two_minimum_chars("foobar"), (true, 6))
}

#[test]
fn starts_with_alphanumeric() {
    assert!(Pacname::start_alphanum("neofetch"))
}

#[test]
fn does_not_start_with_alphanumeric() {
    assert!(!Pacname::start_alphanum("-eofetch"))
}

#[test]
fn no_uppercase() {
    assert!(Pacname::is_uppercase("Pacstall"))
}

#[test]
fn pacname_invalid_chars() {
    assert!(!Pacname::valid_chars("pac$tall"))
}

#[test]
fn minimum_length_counts_characters() {
    assert_eq!(Pacname::two_minimum_chars(""), (false, 0));
    assert_eq!(Pacname::two_minimum_chars("é"), (false, 1));
    assert_eq!(Pacname::two_minimum_chars("éa"), (true, 2));
}

#[test]
fn start_alphanum_knows_other_scripts() {
    assert!(Pacname::start_alphanum("éclair"));
    assert!(Pacname::start_alphanum("9lives"));
    assert!(!Pacname::start_alphanum(""));
    assert!(!Pacname::start_alphanum("_x"));
}

#[test]
fn uppercase_of_other_scripts_is_seen() {
    assert!(Pacname::is_uppercase("caf\u{c9}"));
    assert!(!Pacname::is_uppercase("pacstall"));
    assert!(!Pacname::is_uppercase(""));
}

#[test]
fn valid_chars_accepts_the_whole_alphabet() {
    assert!(Pacname::valid_chars("abc-xyz+0.9"));
    assert!(Pacname::valid_chars(""));
    assert!(!Pacname::valid_chars("Abc"));
    assert!(!Pacname::valid_chars("a~b"));
}

#[test]
fn check_reports_every_part() {
    let status = Pacname.check(BashValue::String(StringSpan::from(String::from("neofetch"))));
    assert_eq!(status.len(), 3);
    assert!(!status.is_empty());
    assert_eq!(status.name(0), Some("pacname exists"));
    assert_eq!(status.name(1), Some("pacname size"));
    assert_eq!(status.name(2), Some("pacname uppercase"));
    assert_eq!(status.name(3), None);
    assert!(!status.has_error());
    assert_eq!(status.filter_type(PassType::Passing).len(), 3);
    assert_eq!(status.filter_type(PassType::Failing).len(), 0);
}

#[test]
fn check_keeps_going_after_a_failure() {
    let status = Pacname.check(BashValue::String(StringSpan::from(String::new())));
    assert_eq!(status.len(), 3);
    assert!(status.has_error());
    let failing = status.filter_type(PassType::Failing);
    assert_eq!(failing.len(), 2);
    assert_eq!(failing[0].name(), "pacname exists");
    assert!(failing[0].status == PassOrFail::Fail(PacnameError::Empty));
    assert_eq!(failing[1].name(), "pacname size");
    assert!(failing[1].status == PassOrFail::Fail(PacnameError::MinimumSizeViolation(0)));
    let passing = status.filter_type(PassType::Passing);
    assert_eq!(passing.len(), 1);
    assert_eq!(passing[0].name(), "pacname uppercase");
}

#[test]
fn check_fails_a_name_with_uppercase() {
    let status = Pacname.check(BashValue::String(StringSpan::from(String::from("Pacstall"))));
    let failing = status.filter_type(PassType::Failing);
    assert_eq!(failing.len(), 1);
    assert_eq!(failing[0].name(), "pacname uppercase");
    assert!(failing[0].status == PassOrFail::Fail(PacnameError::CaseViolation));
    assert_eq!(failing[0].desc(), Some("'pacname' must not contain uppercase letters"));
    assert_eq!(failing[0].help_link(), Some("url"));
}

#[test]
fn check_decays_an_array_first() {
    let entries = vec![
        (4u64, StringSpan::from(String::from("later"))),
        (1u64, StringSpan::from(String::from("x"))),
    ];
    let status = Pacname.check(BashValue::IndexedArray(entries));
    let failing = status.filter_type(PassType::Failing);
    assert_eq!(failing.len(), 1);
    assert!(failing[0].status == PassOrFail::Fail(PacnameError::MinimumSizeViolation(1)));
}
