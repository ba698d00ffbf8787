use pacstall::search::{find_colon, pacscript_url, FilterPkg, ListError, Package, PkgList};
use pacstall::text::str_contains;

fn lines(texts: &[&str]) -> Vec<String> {
    texts.iter().map(|t| String::from(*t)).collect()
}

fn sample() -> PkgList {
    PkgList::default()
        .extend(
            "https://example.org/repo",
            &lines(&["neofetch", "firefox:pkgbase", "firefox:firefox-bin", "firefox:firefox-esr", "neovim"]),
        )
        .unwrap()
}

#[test]
fn a_plain_line_is_a_manifest_of_one_package() {
    let mut list = PkgList::default();
    list.add_entry("https://example.org/repo", "neofetch").unwrap();
    assert_eq!(list.contents.len(), 1);
    let base = &list.contents[0];
    assert_eq!(base.pkgbase, "neofetch");
    assert!(base.is_single());
    assert_eq!(base.flatten_pkgbase().len(), 1);
    assert_eq!(base.packages[0].name, "neofetch");
    assert_eq!(base.packages[0].repo, "https://example.org/repo");
    assert_eq!(base.packages[0].pacscript, "https://example.org/repo/packages/neofetch/neofetch.pacscript");
}

#[test]
fn children_join_the_manifest_listed_before() {
    let list = sample();
    assert_eq!(list.contents.len(), 3);
    let firefox = &list.contents[1];
    assert_eq!(firefox.pkgbase, "firefox");
    assert!(!firefox.is_single());
    assert_eq!(firefox.packages.len(), 2);
    assert_eq!(firefox.packages[0].name, "firefox-bin");
    assert_eq!(firefox.packages[1].name, "firefox-esr");
    assert_eq!(firefox.packages[1].pacscript, "https://example.org/repo/packages/firefox/firefox.pacscript");
    assert_eq!(list.contents[2].pkgbase, "neovim");
}

#[test]
fn a_child_without_parent_is_refused() {
    let mut list = PkgList::default();
    list.add_entry("u", "other").unwrap();
    match list.add_entry("u", "firefox:firefox-bin") {
        Err(ListError::MissingParent(name)) => assert_eq!(name, "firefox"),
        other => panic!("got {:?}", other),
    }
    assert_eq!(list.contents.len(), 1);
    let e = PkgList::default().extend("u", &lines(&["a", "b:c", "d"])).unwrap_err();
    assert_eq!(e.message(), "Missing parent pkgbase for: b");
}

#[test]
fn a_line_with_two_colons_is_refused() {
    let mut list = PkgList::default();
    match list.add_entry("u", "a:b:c") {
        Err(ListError::InvalidLine(line)) => assert_eq!(line, "a:b:c"),
        other => panic!("got {:?}", other),
    }
    assert!(list.contents.is_empty());
    let e = PkgList::default().extend("u", &lines(&["a:b:c"])).unwrap_err();
    assert_eq!(e.message(), "Invalid line in packagelist: a:b:c");
}

#[test]
fn a_manifest_of_a_single_other_package_is_not_single() {
    let list = PkgList::default().extend("u", &lines(&["a:pkgbase", "a:b"])).unwrap();
    assert!(!list.contents[0].is_single());
    let same = PkgList::default().extend("u", &lines(&["a:pkgbase", "a:a"])).unwrap();
    assert!(same.contents[0].is_single());
    let none = PkgList::default().extend("u", &lines(&["a:pkgbase"])).unwrap();
    assert!(!none.contents[0].is_single());
}

#[test]
fn search_shows_whole_manifests_and_single_packages() {
    let list = sample();
    assert_eq!(list.filter_pkg("fire").entries(), vec![(1, 0), (1, 1)]);
    assert_eq!(list.filter_pkg("esr").entries(), vec![(1, 1)]);
    assert_eq!(list.filter_pkg("neo").entries(), vec![(0, 0), (2, 0)]);
    assert_eq!(list.filter_pkg("").entries().len(), 4);
    assert!(list.filter_pkg("emacs").entries().is_empty());
    assert!(list.contents[1].contains("esr"));
    assert!(list.contents[1].contains("fox"));
    assert!(!list.contents[1].contains("neo"));
}

#[test]
fn lines_name_the_manifest_where_it_is_not_the_package() {
    let list = sample();
    assert_eq!(FilterPkg::line(&list.contents[0], 0, "github:me/repo"), "neofetch @ github:me/repo");
    assert_eq!(FilterPkg::line(&list.contents[1], 1, "github:me/repo"), "firefox:firefox-esr @ github:me/repo");
}

#[test]
fn colons_and_infixes() {
    assert_eq!(find_colon("a:b"), 1);
    assert_eq!(find_colon("ab"), 2);
    assert_eq!(find_colon(""), 0);
    assert_eq!(find_colon(":"), 0);
    assert_eq!(pacscript_url("u", "p"), "u/packages/p/p.pacscript");
    assert!(str_contains("firefox", "ref"));
    assert!(str_contains("firefox", "firefox"));
    assert!(str_contains("firefox", ""));
    assert!(str_contains("", ""));
    assert!(!str_contains("fox", "firefox"));
    assert!(!str_contains("firefox", "fx"));
}

#[test]
fn the_first_package_stands_for_its_manifest() {
    let mut list = sample();
    let firefox = list.contents.remove(1);
    let first = Package::first_of(firefox);
    assert_eq!(first.name, "firefox-bin");
    assert_eq!(first.repo, "https://example.org/repo");
}
