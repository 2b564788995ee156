use host_arch::arch::{default_str, from_str, get_default, Arch};

#[test]
fn arm64_on_darwin_is_taken_as_x64() {
    assert_eq!(default_str("darwin", "arm64"), "x64");
    assert_eq!(get_default("darwin", "arm64"), Arch::X64);
}

#[test]
fn arm64_on_linux_stays_arm64() {
    assert_eq!(default_str("linux", "arm64"), "arm64");
    assert_eq!(get_default("linux", "arm64"), Arch::Arm64);
}

#[test]
fn x64_on_darwin_stays_x64() {
    assert_eq!(default_str("darwin", "x64"), "x64");
    assert_eq!(get_default("darwin", "x64"), Arch::X64);
}

#[test]
fn arm64_on_win32_stays_arm64() {
    assert_eq!(default_str("win32", "arm64"), "arm64");
    assert_eq!(get_default("win32", "arm64"), Arch::Arm64);
}

#[test]
fn the_family_is_compared_exactly() {
    assert_eq!(default_str("Darwin", "arm64"), "arm64");
    assert_eq!(default_str("darwin ", "arm64"), "arm64");
    assert_eq!(default_str("", "arm64"), "arm64");
    assert_eq!(default_str("arm64", "darwin"), "darwin");
}

#[test]
fn the_reported_architecture_is_compared_exactly() {
    assert_eq!(default_str("darwin", "ARM64"), "ARM64");
    assert_eq!(default_str("darwin", "arm64 "), "arm64 ");
    assert_eq!(default_str("darwin", "arm"), "arm");
}

#[test]
fn every_supported_architecture_has_a_default_on_every_family() {
    let names = ["x86", "x64", "arm64", "armv7l", "ppc64le", "ppc64", "s390x"];
    let arches = [
        Arch::X86,
        Arch::X64,
        Arch::Arm64,
        Arch::Armv7l,
        Arch::Ppc64le,
        Arch::Ppc64,
        Arch::S390x,
    ];
    for family in ["linux", "win32", "freebsd", ""] {
        for i in 0..7 {
            assert_eq!(default_str(family, names[i]), names[i]);
            assert_eq!(get_default(family, names[i]), arches[i]);
        }
    }
    for i in 0..7 {
        let expected = if names[i] == "arm64" { Arch::X64 } else { arches[i] };
        assert_eq!(get_default("darwin", names[i]), expected);
    }
}

#[test]
fn an_unknown_report_is_handed_on_unchanged() {
    assert_eq!(default_str("linux", "mips64"), "mips64");
    assert_eq!(default_str("darwin", "mips64"), "mips64");
    assert_eq!(default_str("linux", ""), "");
}

#[test]
fn an_unknown_report_gives_no_default_on_any_family() {
    for family in ["darwin", "linux", "win32", "", "arm64"] {
        for raw in ["mips64", "", "X64", "aarch64"] {
            match from_str(default_str(family, raw)) {
                Ok(arch) => panic!("{:?} on {:?} gave {:?}", raw, family, arch),
                Err(e) => assert_eq!(e.description(), format!("Unknown Arch: {}", raw)),
            }
        }
    }
}
