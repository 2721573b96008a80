//! Layout of the linux-riscv64 bundle: where, under the crate root that
//! carries the bundle, the `protoc` binary and the include directory sit.
//!
//! The crate root itself is known only to the build that embeds the bundle,
//! so the caller passes it in; the functions compute the two paths under it.

use vstd::prelude::*;

verus! {

/// Return a path to the bundled include directory under the given crate root.
pub fn include_path(manifest_dir: &str) -> (r: String)
    ensures
        r@ == manifest_dir@ + "/include"@,
{
    let mut r = manifest_dir.to_owned();
    r.append("/include");
    r
}

/// Return a path to the bundled `protoc` binary for linux-riscv64 under the
/// given crate root.
pub fn protoc_bin_path(manifest_dir: &str) -> (r: String)
    ensures
        r@ == manifest_dir@ + "/bin/protoc"@,
{
    let mut r = manifest_dir.to_owned();
    r.append("/bin/protoc");
    r
}

} // verus!
