[package]
name = "asyncgit"
version = "0.1.0"
edition = "2021"
publish = false

[dependencies]
anyhow = "1.0"
crossbeam-channel = "0.5"
crossterm = "0.19"
log = "0.4"
tui = { version = "0.14", default-features = false }
