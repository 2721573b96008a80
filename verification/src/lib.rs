//! Vendored `protoc` binaries with a cross-platform lookup, and a builder
//! for the continuous-integration job matrix of the repository.

pub mod ci;
pub mod linux_riscv64;
mod paths;
mod platform;
mod strutil;

pub use paths::include_path;
pub use paths::include_path_for_arch;
pub use paths::protoc_bin_path;
pub use paths::protoc_bin_path_for_arch;
pub use platform::ArchCrate;
pub use platform::Error;
pub use platform::supported_pair;
pub use platform::variant_for;
pub use strutil::lemma_lex_le_total;
pub use strutil::lemma_lex_le_trans;
pub use strutil::lex_le;
pub use strutil::str_eq;
pub use strutil::str_le;
