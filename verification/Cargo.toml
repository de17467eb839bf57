[package]
name = "rust_minidump_writer_linux"
version = "0.1.0"
edition = "2021"
publish = false

[dependencies]
minidump-writer = "*"
crash-context = "*"
libc = "*"
anyhow = "*"
