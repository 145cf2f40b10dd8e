[package]
name = "flypy_sync"
version = "0.1.0"
edition = "2021"
publish = false

[dependencies]
anyhow = "1"
clap = { version = "4", features = ["derive"] }
dirs = "*"
open = "*"
regex = "1"
reqwest = "0.11"
tokio = { version = "1", features = ["full"] }
