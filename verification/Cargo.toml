[package]
name = "ffi_gen"
version = "0.1.0"
edition = "2021"
publish = false

[dependencies]
anyhow = "1"
futures = "0.3"
ureq = { version = "2", default-features = false }
tempfile = "3"
trybuild = "1"
