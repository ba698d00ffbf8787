use pacstall::clamp::{ArchDistro, DistroClamp, DistroClampError, DistroRelease, Host};
use pacstall::keys::{Arch, HashSumType, PackageKind, PackageString};

fn host() -> Host {
    Host {
        arch: Arch::Amd64,
        clamp: DistroClamp {
            distro: String::from("ubuntu"),
            version: String::from("24.04"),
            codename: Some(String::from("noble")),
        },
    }
}

#[test]
fn arch_tokens_are_lowercase_names() {
    assert_eq!(Arch::Amd64.token(), "amd64");
    assert_eq!(Arch::X86_64.token(), "x86_64");
    assert_eq!(Arch::Ppc64el.token(), "ppc64el");
    assert_eq!(Arch::Other(String::from("mips")).token(), "mips");
}

#[test]
fn arch_is_read_in_any_case() {
    assert!(matches!(Arch::parse("AMD64"), Arch::Amd64));
    assert!(matches!(Arch::parse("aarch64"), Arch::Aarch64));
    assert!(matches!(Arch::parse("Any"), Arch::Any));
    match Arch::parse("MIPS") {
        Arch::Other(name) => assert_eq!(name, "mips"),
        other => panic!("read {:?}", other),
    }
}

#[test]
fn host_arch_is_one_that_runs_its_own_binaries() {
    let here = Arch::host();
    assert!(here.compatible(&here));
    assert!(here.is_same(&Arch::from_token(&here.token())));
    assert!(!here.token().is_empty());
}

#[test]
fn arch_from_token_is_exact() {
    assert!(matches!(Arch::from_token("i686"), Arch::I686));
    assert!(matches!(Arch::from_token("I686"), Arch::Other(_)));
    assert!(matches!(Arch::from_token(""), Arch::Other(_)));
}

#[test]
fn all_arches_come_in_declaration_order() {
    let all = Arch::all();
    assert_eq!(all.len(), 16);
    for (i, arch) in all.iter().enumerate() {
        assert_eq!(arch.index() as usize, i);
    }
    assert_eq!(all[0].token(), "any");
    assert_eq!(all[14].token(), "i686");
    assert_eq!(all[15].token(), "");
}

#[test]
fn compatible_pairs_both_spellings() {
    assert!(Arch::Amd64.compatible(&Arch::X86_64));
    assert!(Arch::X86_64.compatible(&Arch::Amd64));
    assert!(Arch::Arm64.compatible(&Arch::Aarch64));
    assert!(Arch::Armel.compatible(&Arch::Arm));
    assert!(Arch::Armv7h.compatible(&Arch::Armhf));
    assert!(Arch::I386.compatible(&Arch::I686));
    assert!(Arch::Amd64.compatible(&Arch::Amd64));
    assert!(!Arch::Amd64.compatible(&Arch::Arm64));
    assert!(!Arch::Any.compatible(&Arch::Amd64));
    assert!(Arch::Other(String::from("mips")).compatible(&Arch::Other(String::from("mips"))));
    assert!(!Arch::Other(String::from("mips")).compatible(&Arch::Other(String::from("sparc"))));
}

#[test]
fn digest_lengths() {
    assert_eq!(HashSumType::Md5.size(), 32);
    assert_eq!(HashSumType::Sha1.size(), 40);
    assert_eq!(HashSumType::Sha224.size(), 56);
    assert_eq!(HashSumType::Sha256.size(), 64);
    assert_eq!(HashSumType::Sha384.size(), 96);
    assert_eq!(HashSumType::Sha512.size(), 128);
    assert_eq!(HashSumType::B2.size(), 128);
}

#[test]
fn package_kind_is_read_off_the_suffix() {
    let deb = PackageString::parse("foo-deb");
    assert_eq!(deb.stem, "foo");
    assert_eq!(deb.kind, PackageKind::Deb);
    assert_eq!(deb.text(), "foo-deb");
    assert_eq!(deb.split(), ("foo", PackageKind::Deb));
    assert_eq!(PackageString::parse("foo-git").kind, PackageKind::Git);
    assert_eq!(PackageString::parse("hello-app").kind, PackageKind::AppImage);
    assert_eq!(PackageString::parse("foo-bin").kind, PackageKind::Binary);
    let plain = PackageString::parse("neofetch");
    assert_eq!(plain.kind, PackageKind::Source);
    assert_eq!(plain.stem, "neofetch");
    assert_eq!(plain.text(), "neofetch");
    let bare = PackageString::parse("-deb");
    assert_eq!(bare.stem, "");
    assert_eq!(bare.kind, PackageKind::Deb);
    assert!(deb.same_text(&PackageString::parse("foo-deb")));
    assert!(!deb.same_text(&PackageString::parse("foo")));
    assert!(deb.duplicate().same_text(&deb));
}

#[test]
fn clamp_is_read_at_the_first_colon() {
    let clamp = DistroClamp::parse("ubuntu:18.04").unwrap();
    assert_eq!(clamp.distro(), "ubuntu");
    assert_eq!(clamp.version(), "18.04");
    assert!(clamp.codename.is_none());
    let odd = DistroClamp::parse("a:b:c").unwrap();
    assert_eq!(odd.distro(), "a");
    assert_eq!(odd.version(), "b:c");
    let glob = DistroClamp::parse("*:16.04").unwrap();
    assert_eq!(glob.distro(), "*");
}

#[test]
fn clamp_without_colon_is_refused() {
    assert!(matches!(DistroClamp::parse("*"), Err(DistroClampError::NoSplit)));
    assert!(matches!(DistroClamp::parse(""), Err(DistroClampError::NoSplit)));
}

#[test]
fn clamp_of_two_globs_is_refused() {
    assert!(matches!(DistroClamp::parse("*:*"), Err(DistroClampError::DoubleGlob)));
    assert!(matches!(DistroClamp::new("*", "*"), Err(DistroClampError::DoubleGlob)));
    assert!(DistroClamp::new("*", "1").is_ok());
}

#[test]
fn literal_equality_ignores_globs() {
    let a = DistroClamp::parse("ubuntu:18.04").unwrap();
    let b = DistroClamp::parse("ubuntu:18.04").unwrap();
    let glob = DistroClamp::parse("*:18.04").unwrap();
    assert!(a.lit_eq(&b));
    assert!(!a.lit_eq(&glob));
    assert!(glob.lit_eq(&glob.duplicate()));
}

#[test]
fn clamp_admits_its_version_its_codename_and_globs() {
    let h = host();
    assert!(h.clamp.admits("24.04"));
    assert!(h.clamp.admits("noble"));
    assert!(h.clamp.admits("*"));
    assert!(!h.clamp.admits("jammy"));
    assert!(!h.clamp.admits("ubuntu"));
    let any = DistroClamp::new("debian", "*").unwrap();
    assert!(any.admits("bookworm"));
}

#[test]
fn tag_without_fields_holds_everywhere() {
    let h = host();
    let plain = ArchDistro::plain();
    assert!(!plain.is_enhanced());
    assert!(plain.applies(&h));
    assert_eq!(plain.suffix(), "");
}

#[test]
fn tag_holds_where_arch_and_token_fit() {
    let h = host();
    let arch = ArchDistro { arch: Some(Arch::X86_64), distro: None };
    assert!(arch.is_enhanced());
    assert!(arch.applies(&h));
    assert_eq!(arch.suffix(), "x86_64");
    let other = ArchDistro { arch: Some(Arch::Arm64), distro: None };
    assert!(!other.applies(&h));
    let token = ArchDistro { arch: None, distro: Some(String::from("noble")) };
    assert!(token.applies(&h));
    assert_eq!(token.suffix(), "noble");
    let both = ArchDistro { arch: Some(Arch::Amd64), distro: Some(String::from("jammy")) };
    assert!(!both.applies(&h));
    assert_eq!(both.suffix(), "jammy_amd64");
    assert!(both.is_same(&both.duplicate()));
    assert!(!both.is_same(&token));
}

#[test]
fn host_version_is_looked_up_by_series_or_codename() {
    let releases = vec![
        DistroRelease {
            codename: String::from("Jammy Jellyfish"),
            series: String::from("jammy"),
            version: Some(String::from("22.04 LTS")),
        },
        DistroRelease {
            codename: String::from("Noble Numbat"),
            series: String::from("noble"),
            version: Some(String::from("24.04 LTS")),
        },
        DistroRelease { codename: String::from("Sid"), series: String::from("sid"), version: None },
    ];
    let h = Host::of_system(Arch::Arm64, "ubuntu", "noble", &releases);
    assert!(matches!(h.arch, Arch::Arm64));
    assert_eq!(h.clamp.distro, "ubuntu");
    assert_eq!(h.clamp.version, "24.04 LTS");
    assert_eq!(h.clamp.codename.as_deref(), Some("noble"));
    assert!(h.clamp.admits("noble"));
    assert!(h.clamp.admits("24.04 LTS"));
    assert!(!h.clamp.admits("jammy"));
    let by_name = Host::of_system(Arch::Amd64, "ubuntu", "Jammy Jellyfish", &releases);
    assert_eq!(by_name.clamp.version, "22.04 LTS");
    let unnumbered = Host::of_system(Arch::Amd64, "debian", "sid", &releases);
    assert_eq!(unnumbered.clamp.version, "sid");
    let unknown = Host::of_system(Arch::Amd64, "debian", "trixie", &releases);
    assert_eq!(unknown.clamp.version, "trixie");
    assert_eq!(unknown.clamp.codename.as_deref(), Some("trixie"));
}
