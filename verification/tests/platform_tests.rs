use protoc_bin_vendored::include_path_for_arch;
use protoc_bin_vendored::protoc_bin_path_for_arch;
use protoc_bin_vendored::str_eq;
use protoc_bin_vendored::str_le;
use protoc_bin_vendored::ArchCrate;

#[test]
fn include_path() {
    assert!(protoc_bin_vendored::include_path("linux", "x86_64")
        .unwrap()
        .join("google/protobuf/descriptor.proto")
        .exists());
}

#[test]
fn detect_supported_pairs() {
    assert_eq!(
        ArchCrate::detect("linux", "x86").unwrap(),
        ArchCrate::Linux_X86_32
    );
    assert_eq!(
        ArchCrate::detect("linux", "x86_64").unwrap(),
        ArchCrate::Linux_X86_64
    );
    assert_eq!(
        ArchCrate::detect("linux", "aarch64").unwrap(),
        ArchCrate::Linux_Aarch_64
    );
    assert_eq!(
        ArchCrate::detect("linux", "powerpc64").unwrap(),
        ArchCrate::Linux_Ppcle_64
    );
    assert_eq!(
        ArchCrate::detect("linux", "s390x").unwrap(),
        ArchCrate::Linux_S390_64
    );
    assert_eq!(
        ArchCrate::detect("macos", "x86_64").unwrap(),
        ArchCrate::Macos_x86_64
    );
    assert_eq!(
        ArchCrate::detect("macos", "aarch64").unwrap(),
        ArchCrate::Macos_Aarch_64
    );
    assert_eq!(ArchCrate::detect("windows", "x86").unwrap(), ArchCrate::Win32);
    assert_eq!(
        ArchCrate::detect("windows", "aarch64").unwrap(),
        ArchCrate::Win32
    );
}

#[test]
fn detect_unsupported_pair() {
    let e = ArchCrate::detect("freebsd", "riscv64").unwrap_err();
    assert_eq!(e.os(), "freebsd");
    assert_eq!(e.arch(), "riscv64");
    assert_eq!(
        e.message(),
        "protoc binary cannot be found for platform freebsd-riscv64"
    );
}

#[test]
fn detect_rejects_mismatched_pair() {
    assert!(ArchCrate::detect("linux", "sparc64").is_err());
    assert!(ArchCrate::detect("macos", "x86").is_err());
    assert!(ArchCrate::detect("", "").is_err());
}

#[test]
fn protoc_bin_path_unsupported() {
    let e = protoc_bin_vendored::protoc_bin_path("solaris", "sparc").unwrap_err();
    assert_eq!(e.os(), "solaris");
    assert_eq!(e.arch(), "sparc");
    let e = protoc_bin_vendored::include_path("solaris", "sparc").unwrap_err();
    assert_eq!(e.os(), "solaris");
    assert_eq!(e.arch(), "sparc");
}

#[test]
fn resolved_paths_exist() {
    let variants = [
        ArchCrate::Linux_X86_32,
        ArchCrate::Linux_X86_64,
        ArchCrate::Linux_Aarch_64,
        ArchCrate::Linux_Ppcle_64,
        ArchCrate::Linux_S390_64,
        ArchCrate::Macos_Aarch_64,
        ArchCrate::Macos_x86_64,
        ArchCrate::Win32,
    ];
    for v in variants {
        assert!(protoc_bin_path_for_arch(&v).exists());
        assert!(include_path_for_arch(&v).is_dir());
    }
}

#[test]
fn resolved_path_through_pair() {
    let p = protoc_bin_vendored::protoc_bin_path("macos", "aarch64").unwrap();
    assert!(p.exists());
    let i = protoc_bin_vendored::include_path("windows", "anything").unwrap();
    assert!(i.join("google/protobuf/descriptor.proto").exists());
}

#[test]
fn str_le_is_lexicographic() {
    assert!(str_le("a", "b"));
    assert!(str_le("abc", "abd"));
    assert!(str_le("ab", "abc"));
    assert!(str_le("", "a"));
    assert!(str_le("same", "same"));
    assert!(!str_le("b", "a"));
    assert!(!str_le("abc", "ab"));
    assert!(str_le("ci-gen", "protoc-bin-vendored"));
}

#[test]
fn str_eq_compares_contents() {
    assert!(str_eq("linux", "linux"));
    assert!(!str_eq("linux", "linu"));
    assert!(!str_eq("linux", "macos"));
    assert!(str_eq("", ""));
    assert!(!str_eq("", "a"));
}
