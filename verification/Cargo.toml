[package]
name = "protoc_bin_vendored"
version = "0.1.0"
edition = "2021"
publish = false

[dependencies]
protoc-bin-vendored-linux-aarch_64 = "=3.3.0"
protoc-bin-vendored-linux-ppcle_64 = "=3.3.0"
protoc-bin-vendored-linux-s390_64 = "=3.3.0"
protoc-bin-vendored-linux-x86_32 = "=3.3.0"
protoc-bin-vendored-linux-x86_64 = "=3.3.0"
protoc-bin-vendored-macos-aarch_64 = "=3.3.0"
protoc-bin-vendored-macos-x86_64 = "=3.3.0"
protoc-bin-vendored-win32 = "=3.3.0"
