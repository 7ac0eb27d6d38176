[package]
name = "loadgen"
version = "0.1.0"
edition = "2021"
publish = false

[dependencies]
anyhow = "*"
clap = { version = "*", features = ["derive"] }
log = "*"
reqwest = { version = "*", default-features = false }
simple_logger = "*"
tokio = { version = "*", features = ["macros", "rt-multi-thread"] }
