[package]
name = "space_usage"
version = "0.1.0"
edition = "2021"
publish = false

[dependencies]
humansize = "*"
clap = { version = "*", features = ["derive"] }
tokio = { version = "*", features = ["rt-multi-thread", "macros", "fs", "sync"] }
