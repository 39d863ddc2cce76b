[package]
name = "dylib_installer"
version = "0.1.0"
edition = "2021"
publish = false

[dependencies]
anyhow = "1"
clap = "4"
termcolor = "1"
tokio = { version = "1", features = ["fs", "macros", "rt-multi-thread"] }
