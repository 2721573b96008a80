//! Resolution of the vendored `protoc` binary and include directory for a
//! given operating system and CPU architecture.
//!
//! The set of supported (os, arch) pairs is a closed enumeration: anything
//! outside it is reported as unsupported, never mapped to a default.

use vstd::prelude::*;

use crate::strutil::str_eq;

verus! {

/// Error returned when a binary is not available.
#[derive(Debug)]
pub struct Error {
    os: String,
    arch: String,
}

impl Error {
    /// The operating-system identifier carried by the error.
    pub closed spec fn spec_os(&self) -> Seq<char> {
        self.os@
    }

    /// The architecture identifier carried by the error.
    pub closed spec fn spec_arch(&self) -> Seq<char> {
        self.arch@
    }

    /// The operating-system identifier of the unsupported pair.
    pub fn os(&self) -> (r: &str)
        ensures
            r@ == self.spec_os(),
    {
        self.os.as_str()
    }

    /// The architecture identifier of the unsupported pair.
    pub fn arch(&self) -> (r: &str)
        ensures
            r@ == self.spec_arch(),
    {
        self.arch.as_str()
    }

    /// A diagnostic message naming both halves of the unsupported pair.
    pub fn message(&self) -> (r: String)
        ensures
            r@ == "protoc binary cannot be found for platform "@ + self.spec_os()
                + "-"@ + self.spec_arch(),
    {
        let mut r = "protoc binary cannot be found for platform ".to_owned();
        r.append(self.os.as_str());
        r.append("-");
        r.append(self.arch.as_str());
        r
    }
}

/// One platform variant for which a `protoc` binary is bundled.
#[allow(non_camel_case_types)]
#[derive(Clone, Copy, Debug, PartialEq, Eq, Structural)]
pub enum ArchCrate {
    Linux_X86_32,
    Linux_X86_64,
    Linux_Aarch_64,
    Linux_Ppcle_64,
    Linux_S390_64,
    Macos_Aarch_64,
    Macos_x86_64,
    Win32,
}

/// The platform variant that serves a given (os, arch) pair, if any.
pub open spec fn variant_for(os: Seq<char>, arch: Seq<char>) -> Option<ArchCrate> {
    if os == "linux"@ {
        if arch == "x86"@ {
            Some(ArchCrate::Linux_X86_32)
        } else if arch == "x86_64"@ {
            Some(ArchCrate::Linux_X86_64)
        } else if arch == "aarch64"@ {
            Some(ArchCrate::Linux_Aarch_64)
        } else if arch == "powerpc64"@ {
            Some(ArchCrate::Linux_Ppcle_64)
        } else if arch == "s390x"@ {
            Some(ArchCrate::Linux_S390_64)
        } else {
            None
        }
    } else if os == "macos"@ {
        if arch == "x86_64"@ {
            Some(ArchCrate::Macos_x86_64)
        } else if arch == "aarch64"@ {
            Some(ArchCrate::Macos_Aarch_64)
        } else {
            None
        }
    } else if os == "windows"@ {
        Some(ArchCrate::Win32)
    } else {
        None
    }
}

/// Whether a binary is bundled for the (os, arch) pair.
pub open spec fn supported_pair(os: Seq<char>, arch: Seq<char>) -> bool {
    variant_for(os, arch) is Some
}

impl ArchCrate {
    /// Map an (os, arch) pair to its platform variant, or report the pair
    /// as unsupported. Unmatched pairs always fail, never fall back.
    pub fn detect(os: &str, arch: &str) -> (r: Result<ArchCrate, Error>)
        ensures
            r is Ok <==> supported_pair(os@, arch@),
            r matches Ok(v) ==> variant_for(os@, arch@) == Some(v),
            r matches Err(e) ==> e.spec_os() == os@ && e.spec_arch() == arch@,
    {
        if str_eq(os, "linux") {
            if str_eq(arch, "x86") {
                Ok(ArchCrate::Linux_X86_32)
            } else if str_eq(arch, "x86_64") {
                Ok(ArchCrate::Linux_X86_64)
            } else if str_eq(arch, "aarch64") {
                Ok(ArchCrate::Linux_Aarch_64)
            } else if str_eq(arch, "powerpc64") {
                Ok(ArchCrate::Linux_Ppcle_64)
            } else if str_eq(arch, "s390x") {
                Ok(ArchCrate::Linux_S390_64)
            } else {
                Err(Error { os: os.to_owned(), arch: arch.to_owned() })
            }
        } else if str_eq(os, "macos") {
            if str_eq(arch, "x86_64") {
                Ok(ArchCrate::Macos_x86_64)
            } else if str_eq(arch, "aarch64") {
                Ok(ArchCrate::Macos_Aarch_64)
            } else {
                Err(Error { os: os.to_owned(), arch: arch.to_owned() })
            }
        } else if str_eq(os, "windows") {
            Ok(ArchCrate::Win32)
        } else {
            Err(Error { os: os.to_owned(), arch: arch.to_owned() })
        }
    }
}

} // verus!
