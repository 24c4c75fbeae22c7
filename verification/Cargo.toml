[package]
name = "bindgen_driver"
version = "0.1.0"
edition = "2021"
publish = false

[dependencies]
anyhow = "1"
bindgen = "*"
clang-sys = { version = "1", features = ["runtime"] }
clap = { version = "4", features = ["derive"] }
shlex = "1"
