//! Paths to the bundled `protoc` binary and to the bundled `.proto`
//! include directory, dispatched over the platform variant.
//!
//! The paths point into whichever platform crate serves the variant; their
//! contents are opaque here, so the contracts state when resolution
//! succeeds, not where on disk the bundle sits.

use vstd::prelude::*;

use crate::platform::ArchCrate;
use crate::platform::Error;
use crate::platform::supported_pair;
use crate::platform::variant_for;

verus! {

#[verifier::external_type_specification]
#[verifier::external_body]
pub struct ExPathBuf(std::path::PathBuf);

/// Relies on protoc_bin_vendored_linux_x86_32::protoc_bin_path: the path of
/// the binary that the crate bundles for linux-x86_32.
#[verifier::external_body]
fn bin_linux_x86_32() -> std::path::PathBuf {
    protoc_bin_vendored_linux_x86_32::protoc_bin_path()
}

/// Relies on protoc_bin_vendored_linux_x86_64::protoc_bin_path: the path of
/// the binary that the crate bundles for linux-x86_64.
#[verifier::external_body]
fn bin_linux_x86_64() -> std::path::PathBuf {
    protoc_bin_vendored_linux_x86_64::protoc_bin_path()
}

/// Relies on protoc_bin_vendored_linux_aarch_64::protoc_bin_path: the path
/// of the binary that the crate bundles for linux-aarch_64.
#[verifier::external_body]
fn bin_linux_aarch_64() -> std::path::PathBuf {
    protoc_bin_vendored_linux_aarch_64::protoc_bin_path()
}

/// Relies on protoc_bin_vendored_linux_ppcle_64::protoc_bin_path: the path
/// of the binary that the crate bundles for linux-ppcle_64.
#[verifier::external_body]
fn bin_linux_ppcle_64() -> std::path::PathBuf {
    protoc_bin_vendored_linux_ppcle_64::protoc_bin_path()
}

/// Relies on protoc_bin_vendored_linux_s390_64::protoc_bin_path: the path
/// of the binary that the crate bundles for linux-s390_64.
#[verifier::external_body]
fn bin_linux_s390_64() -> std::path::PathBuf {
    protoc_bin_vendored_linux_s390_64::protoc_bin_path()
}

/// Relies on protoc_bin_vendored_macos_aarch_64::protoc_bin_path: the path
/// of the binary that the crate bundles for macos-aarch_64.
#[verifier::external_body]
fn bin_macos_aarch_64() -> std::path::PathBuf {
    protoc_bin_vendored_macos_aarch_64::protoc_bin_path()
}

/// Relies on protoc_bin_vendored_macos_x86_64::protoc_bin_path: the path
/// of the binary that the crate bundles for macos-x86_64.
#[verifier::external_body]
fn bin_macos_x86_64() -> std::path::PathBuf {
    protoc_bin_vendored_macos_x86_64::protoc_bin_path()
}

/// Relies on protoc_bin_vendored_win32::protoc_bin_path: the path of the
/// binary that the crate bundles for windows.
#[verifier::external_body]
fn bin_win32() -> std::path::PathBuf {
    protoc_bin_vendored_win32::protoc_bin_path()
}

/// Relies on protoc_bin_vendored_linux_x86_32::include_path: the bundled
/// `.proto` include directory of the linux-x86_32 crate.
#[verifier::external_body]
fn inc_linux_x86_32() -> std::path::PathBuf {
    protoc_bin_vendored_linux_x86_32::include_path()
}

/// Relies on protoc_bin_vendored_linux_x86_64::include_path: the bundled
/// `.proto` include directory of the linux-x86_64 crate.
#[verifier::external_body]
fn inc_linux_x86_64() -> std::path::PathBuf {
    protoc_bin_vendored_linux_x86_64::include_path()
}

/// Relies on protoc_bin_vendored_linux_aarch_64::include_path: the bundled
/// `.proto` include directory of the linux-aarch_64 crate.
#[verifier::external_body]
fn inc_linux_aarch_64() -> std::path::PathBuf {
    protoc_bin_vendored_linux_aarch_64::include_path()
}

/// Relies on protoc_bin_vendored_linux_ppcle_64::include_path: the bundled
/// `.proto` include directory of the linux-ppcle_64 crate.
#[verifier::external_body]
fn inc_linux_ppcle_64() -> std::path::PathBuf {
    protoc_bin_vendored_linux_ppcle_64::include_path()
}

/// Relies on protoc_bin_vendored_linux_s390_64::include_path: the bundled
/// `.proto` include directory of the linux-s390_64 crate.
#[verifier::external_body]
fn inc_linux_s390_64() -> std::path::PathBuf {
    protoc_bin_vendored_linux_s390_64::include_path()
}

/// Relies on protoc_bin_vendored_macos_aarch_64::include_path: the bundled
/// `.proto` include directory of the macos-aarch_64 crate.
#[verifier::external_body]
fn inc_macos_aarch_64() -> std::path::PathBuf {
    protoc_bin_vendored_macos_aarch_64::include_path()
}

/// Relies on protoc_bin_vendored_macos_x86_64::include_path: the bundled
/// `.proto` include directory of the macos-x86_64 crate.
#[verifier::external_body]
fn inc_macos_x86_64() -> std::path::PathBuf {
    protoc_bin_vendored_macos_x86_64::include_path()
}

/// Relies on protoc_bin_vendored_win32::include_path: the bundled `.proto`
/// include directory of the windows crate.
#[verifier::external_body]
fn inc_win32() -> std::path::PathBuf {
    protoc_bin_vendored_win32::include_path()
}

/// Return a path to the `protoc` binary bundled for the platform variant.
pub fn protoc_bin_path_for_arch(arch_crate: &ArchCrate) -> std::path::PathBuf {
    match arch_crate {
        ArchCrate::Linux_X86_32 => bin_linux_x86_32(),
        ArchCrate::Linux_X86_64 => bin_linux_x86_64(),
        ArchCrate::Linux_Aarch_64 => bin_linux_aarch_64(),
        ArchCrate::Linux_Ppcle_64 => bin_linux_ppcle_64(),
        ArchCrate::Linux_S390_64 => bin_linux_s390_64(),
        ArchCrate::Macos_Aarch_64 => bin_macos_aarch_64(),
        ArchCrate::Macos_x86_64 => bin_macos_x86_64(),
        ArchCrate::Win32 => bin_win32(),
    }
}

/// Return a path to the include directory bundled for the platform variant.
///
/// The directory's content is the same for every variant.
pub fn include_path_for_arch(arch_crate: &ArchCrate) -> std::path::PathBuf {
    match arch_crate {
        ArchCrate::Linux_X86_32 => inc_linux_x86_32(),
        ArchCrate::Linux_X86_64 => inc_linux_x86_64(),
        ArchCrate::Linux_Aarch_64 => inc_linux_aarch_64(),
        ArchCrate::Linux_Ppcle_64 => inc_linux_ppcle_64(),
        ArchCrate::Linux_S390_64 => inc_linux_s390_64(),
        ArchCrate::Macos_Aarch_64 => inc_macos_aarch_64(),
        ArchCrate::Macos_x86_64 => inc_macos_x86_64(),
        ArchCrate::Win32 => inc_win32(),
    }
}

/// Return a path to the `protoc` binary for the given (os, arch) pair.
///
/// Resolution succeeds exactly on the supported pairs; any other pair is
/// reported as unsupported, with both identifiers carried in the error.
pub fn protoc_bin_path(os: &str, arch: &str) -> (r: Result<std::path::PathBuf, Error>)
    ensures
        r is Ok <==> supported_pair(os@, arch@),
        r matches Err(e) ==> e.spec_os() == os@ && e.spec_arch() == arch@,
{
    match ArchCrate::detect(os, arch) {
        Ok(arch_crate) => Ok(protoc_bin_path_for_arch(&arch_crate)),
        Err(e) => Err(e),
    }
}

/// Return a path to the include directory with the bundled `.proto` files
/// (like `descriptor.proto`) for the given (os, arch) pair.
///
/// Resolution succeeds exactly on the supported pairs; any other pair is
/// reported as unsupported, with both identifiers carried in the error.
pub fn include_path(os: &str, arch: &str) -> (r: Result<std::path::PathBuf, Error>)
    ensures
        r is Ok <==> supported_pair(os@, arch@),
        r matches Err(e) ==> e.spec_os() == os@ && e.spec_arch() == arch@,
{
    match ArchCrate::detect(os, arch) {
        Ok(arch_crate) => Ok(include_path_for_arch(&arch_crate)),
        Err(e) => Err(e),
    }
}

} // verus!
