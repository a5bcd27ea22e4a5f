[package]
name = "aitalked"
version = "0.1.0"
edition = "2021"
publish = false

[dependencies]
anyhow = "*"
clap = { version = "*", features = ["derive", "env"] }
encoding_rs = "*"
libloading = "*"
once_cell = "*"
tokio = { version = "*", features = ["rt-multi-thread", "macros", "sync"] }
